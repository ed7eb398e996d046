use git_mirror::project::{collect_mirrors, interpret, Description, Mirror, Notice, Project};

fn project(name: &str, description: &str) -> Project {
    Project {
        description: description.to_string(),
        web_url: format!("https://gitlab.example.com/g/{}", name),
        ssh_url: format!("git@gitlab.example.com:g/{}.git", name),
        http_url: format!("https://gitlab.example.com/g/{}.git", name),
    }
}

fn desc(origin: &str, skip: bool) -> Result<Description, String> {
    Ok(Description { origin: origin.to_string(), skip })
}

#[test]
fn origin_maps_to_ssh_url() {
    let p = project("bar", "origin: git@example.com:foo/bar.git");
    let r = interpret(&p, &desc("git@example.com:foo/bar.git", false), false);
    assert_eq!(
        r,
        Ok(Mirror {
            origin: "git@example.com:foo/bar.git".to_string(),
            destination: "git@gitlab.example.com:g/bar.git".to_string(),
        })
    );
}

#[test]
fn use_http_maps_to_http_url() {
    let p = project("bar", "origin: git@example.com:foo/bar.git");
    let r = interpret(&p, &desc("git@example.com:foo/bar.git", false), true);
    assert_eq!(r.unwrap().destination, "https://gitlab.example.com/g/bar.git");
}

#[test]
fn skip_flag_yields_notice_and_walk_goes_on() {
    let entries = vec![
        (
            project("a", "origin: https://example.com/foo/bar.git\nskip: true"),
            desc("https://example.com/foo/bar.git", true),
        ),
        (project("b", "origin: https://example.com/b.git"), desc("https://example.com/b.git", false)),
    ];
    let (mirrors, notices) = collect_mirrors(&entries, false);
    assert_eq!(
        mirrors,
        vec![Mirror {
            origin: "https://example.com/b.git".to_string(),
            destination: "git@gitlab.example.com:g/b.git".to_string(),
        }]
    );
    assert_eq!(
        notices,
        vec![Notice::SkippedByFlag { web_url: "https://gitlab.example.com/g/a".to_string() }]
    );
}

#[test]
fn malformed_description_yields_warning_not_failure() {
    let entries = vec![
        (project("x", "not: valid: yaml: at: all"), Err("mapping values are not allowed".to_string())),
        (project("y", "origin: https://example.com/y.git"), desc("https://example.com/y.git", false)),
    ];
    let (mirrors, notices) = collect_mirrors(&entries, true);
    assert_eq!(mirrors.len(), 1);
    assert_eq!(mirrors[0].destination, "https://gitlab.example.com/g/y.git");
    assert_eq!(
        notices,
        vec![Notice::MalformedDescription {
            web_url: "https://gitlab.example.com/g/x".to_string(),
            cause: "mapping values are not allowed".to_string(),
        }]
    );
}

#[test]
fn missing_origin_is_malformed() {
    let p = project("m", "skip: false");
    let r = interpret(&p, &Err("missing field `origin`".to_string()), false);
    assert_eq!(
        r,
        Err(Notice::MalformedDescription {
            web_url: "https://gitlab.example.com/g/m".to_string(),
            cause: "missing field `origin`".to_string(),
        })
    );
}

#[test]
fn mirror_count_is_projects_less_dropped() {
    let mut entries = Vec::new();
    for i in 0..10 {
        let name = format!("p{}", i);
        let decoded = match i % 5 {
            0 => Err("garbage".to_string()),
            1 => desc("https://example.com/s.git", true),
            _ => desc(&format!("https://example.com/{}.git", name), false),
        };
        entries.push((project(&name, ""), decoded));
    }
    let (mirrors, notices) = collect_mirrors(&entries, false);
    assert_eq!(mirrors.len(), 6);
    assert_eq!(notices.len(), 4);
    assert_eq!(mirrors[0].origin, "https://example.com/p2.git");
    assert_eq!(mirrors[5].destination, "git@gitlab.example.com:g/p9.git");
}

#[test]
fn no_projects_no_mirrors() {
    let (mirrors, notices) = collect_mirrors(&Vec::new(), false);
    assert!(mirrors.is_empty());
    assert!(notices.is_empty());
}
