//! Projects of a group, their descriptions, and the mirrors they yield.

use vstd::prelude::*;

verus! {

/// One project of the group, as the projects API lists it.
#[derive(Debug, Clone, PartialEq, Eq)]
pub struct Project {
    /// Free text, read as a description document.
    pub description: String,
    /// The project's page, named in diagnostics.
    pub web_url: String,
    /// Clone URL over SSH (`ssh_url_to_repo`).
    pub ssh_url: String,
    /// Clone URL over HTTP (`http_url_to_repo`).
    pub http_url: String,
}

/// What a project's description says: where the repository is mirrored
/// from, and whether to leave it out.
#[derive(Debug, Clone, PartialEq, Eq)]
pub struct Description {
    pub origin: String,
    pub skip: bool,
}

/// Where a discovered repository is mirrored from, and where to.
#[derive(Debug, Clone, PartialEq, Eq)]
pub struct Mirror {
    pub origin: String,
    pub destination: String,
}

/// Why a project yields no mirror. Neither stops the discovery of the
/// other projects.
#[derive(Debug, Clone, PartialEq, Eq)]
pub enum Notice {
    /// The description asks for the project to be left out.
    SkippedByFlag { web_url: String },
    /// The description could not be decoded; `cause` says why.
    MalformedDescription { web_url: String, cause: String },
}

/// A project together with the outcome of decoding its description.
pub type Entry = (Project, Result<Description, String>);

/// The clone URL that a mirror pushes to.
pub open spec fn destination_of(p: Project, use_http: bool) -> String {
    if use_http { p.http_url } else { p.ssh_url }
}

/// What one project yields, given what its description decoded to.
pub open spec fn interpretation(
    p: Project,
    decoded: Result<Description, String>,
    use_http: bool,
) -> Result<Mirror, Notice> {
    match decoded {
        Err(cause) => Err(Notice::MalformedDescription { web_url: p.web_url, cause }),
        Ok(desc) => if desc.skip {
            Err(Notice::SkippedByFlag { web_url: p.web_url })
        } else {
            Ok(Mirror { origin: desc.origin, destination: destination_of(p, use_http) })
        },
    }
}

/// The mirrors that a list of entries yields, in the order of the entries.
pub open spec fn mirrors_of(entries: Seq<Entry>, use_http: bool) -> Seq<Mirror>
    decreases entries.len(),
{
    if entries.len() == 0 {
        Seq::empty()
    } else {
        let before = mirrors_of(entries.drop_last(), use_http);
        match interpretation(entries.last().0, entries.last().1, use_http) {
            Ok(m) => before.push(m),
            Err(_) => before,
        }
    }
}

/// The notices that a list of entries yields, in the order of the entries.
pub open spec fn notices_of(entries: Seq<Entry>, use_http: bool) -> Seq<Notice>
    decreases entries.len(),
{
    if entries.len() == 0 {
        Seq::empty()
    } else {
        let before = notices_of(entries.drop_last(), use_http);
        match interpretation(entries.last().0, entries.last().1, use_http) {
            Ok(_) => before,
            Err(n) => before.push(n),
        }
    }
}

/// Whether an entry is left out: its description did not decode, or it
/// carries the skip flag.
pub open spec fn is_dropped(e: Entry) -> bool {
    match e.1 {
        Err(_) => true,
        Ok(desc) => desc.skip,
    }
}

/// How many entries are left out.
pub open spec fn dropped_count(entries: Seq<Entry>) -> nat
    decreases entries.len(),
{
    if entries.len() == 0 {
        0
    } else {
        dropped_count(entries.drop_last()) + if is_dropped(entries.last()) { 1nat } else { 0nat }
    }
}

/// Interprets one project, given the outcome of decoding its description.
///
/// A description that did not decode, or one with the skip flag, yields a
/// notice naming the project; any other yields a mirror from the
/// description's origin to the project's HTTP clone URL when `use_http`
/// holds, its SSH clone URL otherwise.
pub fn interpret(project: &Project, decoded: &Result<Description, String>, use_http: bool) -> (r:
    Result<Mirror, Notice>)
    ensures
        r == interpretation(*project, *decoded, use_http),
{
    match decoded {
        Err(cause) => Err(
            Notice::MalformedDescription { web_url: project.web_url.clone(), cause: cause.clone() },
        ),
        Ok(desc) => {
            if desc.skip {
                Err(Notice::SkippedByFlag { web_url: project.web_url.clone() })
            } else {
                let destination = if use_http {
                    project.http_url.clone()
                } else {
                    project.ssh_url.clone()
                };
                Ok(Mirror { origin: desc.origin.clone(), destination })
            }
        },
    }
}

/// Interprets every entry, in order: the mirrors they yield, and a notice
/// for each project that yields none.
pub fn collect_mirrors(entries: &Vec<Entry>, use_http: bool) -> (r: (Vec<Mirror>, Vec<Notice>))
    ensures
        r.0@ == mirrors_of(entries@, use_http),
        r.1@ == notices_of(entries@, use_http),
{
    let mut mirrors: Vec<Mirror> = Vec::new();
    let mut notices: Vec<Notice> = Vec::new();
    let mut i: usize = 0;
    while i < entries.len()
        invariant
            i <= entries.len(),
            mirrors@ == mirrors_of(entries@.take(i as int), use_http),
            notices@ == notices_of(entries@.take(i as int), use_http),
        decreases entries.len() - i,
    {
        assert(entries@.take(i + 1).drop_last() =~= entries@.take(i as int));
        match interpret(&entries[i].0, &entries[i].1, use_http) {
            Ok(m) => mirrors.push(m),
            Err(n) => notices.push(n),
        }
        i = i + 1;
    }
    assert(entries@.take(entries.len() as int) =~= entries@);
    (mirrors, notices)
}

/// Every entry yields a mirror unless it is left out: the mirror list is as
/// long as the list of projects, less those whose description did not decode
/// or carries the skip flag. Each of those yields a notice instead.
pub proof fn lemma_mirror_count(entries: Seq<Entry>, use_http: bool)
    ensures
        mirrors_of(entries, use_http).len() == entries.len() - dropped_count(entries),
        notices_of(entries, use_http).len() == dropped_count(entries),
    decreases entries.len(),
{
    if entries.len() > 0 {
        lemma_mirror_count(entries.drop_last(), use_http);
    }
}

} // verus!
