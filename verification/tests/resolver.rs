use rustwebserver::resolve::{resolve, EntryKind, Probe, TargetKind};

fn probe(kind: EntryKind, real_path: Option<&str>) -> Probe {
    Probe { kind, real_path: real_path.map(|p| p.to_string()) }
}

fn kind_of(path: &str, kind: EntryKind, real_path: Option<&str>) -> TargetKind {
    resolve("/srv/www", path, &probe(kind, real_path)).kind
}

#[test]
fn existing_file_is_static() {
    let target = resolve(
        "/srv/www",
        "/index.html",
        &probe(EntryKind::File, Some("/srv/www/index.html")),
    );
    assert_eq!(target.kind, TargetKind::Static);
    assert_eq!(target.path, "/srv/www/index.html");
}

#[test]
fn file_under_scripts_is_script() {
    let target = resolve(
        "/srv/www",
        "/scripts/run.sh",
        &probe(EntryKind::File, Some("/srv/www/scripts/run.sh")),
    );
    assert_eq!(target.kind, TargetKind::Script);
    assert_eq!(target.path, "/srv/www/scripts/run.sh");
    assert_eq!(kind_of("/./scripts//deep/run.sh", EntryKind::File, None), TargetKind::Script);
    assert_eq!(kind_of("scripts/run.sh", EntryKind::File, None), TargetKind::Script);
}

#[test]
fn script_needs_an_existing_file() {
    assert_eq!(kind_of("/scripts/none.sh", EntryKind::Missing, None), TargetKind::NotFound);
    assert_eq!(kind_of("/scripts/pipe", EntryKind::Other, None), TargetKind::Static);
    assert_eq!(kind_of("/scripts", EntryKind::Directory, None), TargetKind::Forbidden);
}

#[test]
fn scripts_prefix_goes_by_component() {
    assert_eq!(kind_of("/scriptsx/run.sh", EntryKind::File, None), TargetKind::Static);
    assert_eq!(kind_of("/a/scripts/run.sh", EntryKind::File, None), TargetKind::Static);
    assert_eq!(kind_of("/Scripts/run.sh", EntryKind::File, None), TargetKind::Static);
}

#[test]
fn directory_is_forbidden() {
    assert_eq!(kind_of("/", EntryKind::Directory, Some("/srv/www")), TargetKind::Forbidden);
    assert_eq!(kind_of("/docs", EntryKind::Directory, None), TargetKind::Forbidden);
}

#[test]
fn denied_path_is_forbidden_whatever_exists() {
    assert_eq!(kind_of("/forbidden.html", EntryKind::File, None), TargetKind::Forbidden);
    assert_eq!(kind_of("/forbidden.html", EntryKind::Missing, None), TargetKind::Forbidden);
    assert_eq!(kind_of("/forbidden.html", EntryKind::Other, None), TargetKind::Forbidden);
    assert_eq!(kind_of("/a/forbidden.html", EntryKind::File, None), TargetKind::Static);
    assert_eq!(kind_of("//forbidden.html", EntryKind::File, None), TargetKind::Static);
}

#[test]
fn parent_segment_is_forbidden() {
    assert_eq!(kind_of("/a/../index.html", EntryKind::File, None), TargetKind::Forbidden);
    assert_eq!(kind_of("/../etc/passwd", EntryKind::File, None), TargetKind::Forbidden);
    assert_eq!(kind_of("/scripts/../x", EntryKind::Missing, None), TargetKind::Forbidden);
}

#[test]
fn entry_resolved_outside_root_is_forbidden() {
    assert_eq!(
        kind_of("/link", EntryKind::File, Some("/etc/passwd")),
        TargetKind::Forbidden
    );
    assert_eq!(
        kind_of("/link", EntryKind::File, Some("/srv/wwwroot/file")),
        TargetKind::Forbidden
    );
    assert_eq!(
        kind_of("/link", EntryKind::File, Some("/srv/www/real/file")),
        TargetKind::Static
    );
}

#[test]
fn root_itself_is_never_served() {
    assert_eq!(kind_of("/", EntryKind::File, None), TargetKind::Forbidden);
    assert_eq!(kind_of("", EntryKind::Other, None), TargetKind::Forbidden);
    assert_eq!(kind_of("/./", EntryKind::File, None), TargetKind::Forbidden);
    assert_eq!(kind_of("/.", EntryKind::Missing, None), TargetKind::NotFound);
}

#[test]
fn missing_entry_is_not_found() {
    assert_eq!(kind_of("/nothing.txt", EntryKind::Missing, None), TargetKind::NotFound);
    assert_eq!(kind_of("/", EntryKind::Missing, None), TargetKind::NotFound);
}
