use dotlinker::ignore::IgnoreList;
use dotlinker::link::{
    get_link_action, handle_link, handle_symlink, target_path, target_state, LinkAction,
    LinkOutcome, TargetState, Verdict,
};

fn after(outcome: &LinkOutcome, before: TargetState) -> TargetState {
    match outcome.verdict {
        Verdict::CreateLink => TargetState::Symlink,
        Verdict::RemoveLink => TargetState::Absent,
        _ => before,
    }
}

#[test]
fn flag_chooses_the_action() {
    assert_eq!(get_link_action(true), LinkAction::Unlink);
    assert_eq!(get_link_action(false), LinkAction::Link);
}

#[test]
fn target_is_directory_joined_with_file_name() {
    assert_eq!(target_path("/src/b.txt", "/t"), Some("/t/b.txt".to_string()));
    assert_eq!(target_path("/src/dir/", "/t/"), Some("/t/dir".to_string()));
    assert_eq!(target_path("rel/.bashrc", "/home/u/.config"), Some("/home/u/.config/.bashrc".to_string()));
    assert_eq!(target_path("/", "/t"), None);
    assert_eq!(target_path("/src/..", "/t"), None);
}

#[test]
fn source_without_file_name_is_skipped() {
    for action in [LinkAction::Link, LinkAction::Unlink] {
        for simulate in [false, true] {
            for state in [TargetState::Absent, TargetState::Symlink, TargetState::Other] {
                let outcome = handle_link("/", "/t", &action, simulate, state);
                assert_eq!(outcome.verdict, Verdict::NoFileName);
                assert_eq!(outcome.target, None);
                assert!(!outcome.mutates());
                assert!(!outcome.needs_answer());
            }
        }
    }
}

#[test]
fn link_creates_only_where_nothing_is() {
    let outcome = handle_link("/src/a", "/t", &LinkAction::Link, false, TargetState::Absent);
    assert_eq!(outcome.verdict, Verdict::CreateLink);
    assert_eq!(outcome.target, Some("/t/a".to_string()));
    assert!(outcome.mutates());
    assert!(outcome.needs_answer());
    for state in [TargetState::Symlink, TargetState::Other] {
        for simulate in [false, true] {
            let outcome = handle_link("/src/a", "/t", &LinkAction::Link, simulate, state);
            assert_eq!(outcome.verdict, Verdict::AlreadyExists);
            assert_eq!(outcome.target, Some("/t/a".to_string()));
            assert!(!outcome.mutates());
        }
    }
}

#[test]
fn unlink_removes_only_a_symlink() {
    let outcome = handle_link("/src/a", "/t", &LinkAction::Unlink, false, TargetState::Symlink);
    assert_eq!(outcome.verdict, Verdict::RemoveLink);
    assert_eq!(outcome.target, Some("/t/a".to_string()));
    assert!(outcome.mutates());
    let outcome = handle_link("/src/a", "/t", &LinkAction::Unlink, false, TargetState::Absent);
    assert_eq!(outcome.verdict, Verdict::Missing);
    assert!(!outcome.mutates());
}

#[test]
fn unlink_spares_a_regular_file() {
    for simulate in [false, true] {
        let outcome = handle_link("/src/a", "/t", &LinkAction::Unlink, simulate, TargetState::Other);
        assert_eq!(outcome.verdict, Verdict::NotASymlink);
        assert!(!outcome.mutates());
        assert_eq!(after(&outcome, TargetState::Other), TargetState::Other);
    }
}

#[test]
fn simulation_mutates_nothing() {
    for action in [LinkAction::Link, LinkAction::Unlink] {
        for state in [TargetState::Absent, TargetState::Symlink, TargetState::Other] {
            let outcome = handle_link("/src/a", "/t", &action, true, state);
            assert!(!outcome.mutates());
            assert_eq!(after(&outcome, state), state);
        }
    }
    let outcome = handle_link("/src/a", "/t", &LinkAction::Link, true, TargetState::Absent);
    assert_eq!(outcome.verdict, Verdict::WouldLink);
    let outcome = handle_link("/src/a", "/t", &LinkAction::Unlink, true, TargetState::Symlink);
    assert_eq!(outcome.verdict, Verdict::WouldUnlink);
}

#[test]
fn linking_twice_is_linking_once() {
    for state in [TargetState::Absent, TargetState::Symlink, TargetState::Other] {
        let first = handle_link("/src/a", "/t", &LinkAction::Link, false, state);
        let once = after(&first, state);
        let second = handle_link("/src/a", "/t", &LinkAction::Link, false, once);
        assert_eq!(second.verdict, Verdict::AlreadyExists);
        assert_eq!(after(&second, once), once);
    }
}

#[test]
fn link_then_unlink_leaves_the_target_absent() {
    let linked = handle_link("/src/a", "/t", &LinkAction::Link, false, TargetState::Absent);
    let state = after(&linked, TargetState::Absent);
    assert_eq!(state, TargetState::Symlink);
    let unlinked = handle_link("/src/a", "/t", &LinkAction::Unlink, false, state);
    assert_eq!(unlinked.verdict, Verdict::RemoveLink);
    assert_eq!(unlinked.target, linked.target);
    assert_eq!(after(&unlinked, state), TargetState::Absent);
}

#[test]
fn a_declined_action_is_skipped() {
    let outcome = handle_symlink("/src/a", "/t", false, false, TargetState::Absent, false);
    assert_eq!(outcome.verdict, Verdict::Declined);
    assert_eq!(outcome.target, Some("/t/a".to_string()));
    assert!(!outcome.mutates());
    let outcome = handle_symlink("/src/a", "/t", true, true, TargetState::Symlink, false);
    assert_eq!(outcome.verdict, Verdict::Declined);
    let outcome = handle_symlink("/src/a", "/t", false, false, TargetState::Other, false);
    assert_eq!(outcome.verdict, Verdict::AlreadyExists);
    let outcome = handle_symlink("/", "/t", false, false, TargetState::Absent, false);
    assert_eq!(outcome.verdict, Verdict::NoFileName);
}

#[test]
fn a_confirmed_action_goes_ahead() {
    let outcome = handle_symlink("/src/a", "/t", false, false, TargetState::Absent, true);
    assert_eq!(outcome.verdict, Verdict::CreateLink);
    let outcome = handle_symlink("/src/a", "/t", true, false, TargetState::Absent, true);
    assert_eq!(outcome.verdict, Verdict::WouldLink);
    let outcome = handle_symlink("/src/a", "/t", false, true, TargetState::Symlink, true);
    assert_eq!(outcome.verdict, Verdict::RemoveLink);
    let outcome = handle_symlink("/src/a", "/t", true, true, TargetState::Symlink, true);
    assert_eq!(outcome.verdict, Verdict::WouldUnlink);
    let outcome = handle_symlink("/src/a", "/t", false, true, TargetState::Other, true);
    assert_eq!(outcome.verdict, Verdict::NotASymlink);
    let outcome = handle_symlink("/src/a", "/t", false, true, TargetState::Absent, true);
    assert_eq!(outcome.verdict, Verdict::Missing);
}

#[test]
fn link_over_a_directory_links_only_what_is_not_ignored() {
    let mut list = IgnoreList::new();
    assert!(list.load_from_file(Some("*.log\nnotes.txt\n"), "/src").is_ok());
    let listing = vec![
        "/src/a.log".to_string(),
        "/src/notes.txt".to_string(),
        "/src/b.txt".to_string(),
    ];
    let mut linked: Vec<String> = Vec::new();
    for path in list.candidates(&listing) {
        let outcome = handle_link(&path, "/home/u/.config", &LinkAction::Link, false, TargetState::Absent);
        if outcome.verdict == Verdict::CreateLink {
            linked.push(outcome.target.unwrap());
        }
    }
    assert_eq!(linked, vec!["/home/u/.config/b.txt".to_string()]);
}

#[test]
fn every_verdict_has_its_own_report() {
    let line = |verdict: Verdict, target: Option<&str>| {
        LinkOutcome { verdict, target: target.map(|t| t.to_string()) }.report("/src/a")
    };
    assert_eq!(line(Verdict::NoFileName, None), "skipping '/src/a'  filename not found");
    assert_eq!(line(Verdict::AlreadyExists, Some("/t/a")), "target '/t/a' already exists, skipping.");
    assert_eq!(line(Verdict::Missing, Some("/t/a")), "target '/t/a' doesn't exists, skipping.");
    assert_eq!(line(Verdict::NotASymlink, Some("/t/a")), "target '/t/a' is not a symlink, skipping.");
    assert_eq!(line(Verdict::Declined, Some("/t/a")), "skipping '/src/a' ");
    assert_eq!(line(Verdict::WouldLink, Some("/t/a")), "[SIMULATE] linking '/src/a' -> '/t/a'");
    assert_eq!(line(Verdict::WouldUnlink, Some("/t/a")), "[SIMULATE] unlinking '/src/a' -> '/t/a'");
    assert_eq!(line(Verdict::CreateLink, Some("/t/a")), "linking '/src/a' -> '/t/a'");
    assert_eq!(line(Verdict::RemoveLink, Some("/t/a")), "unlinking '/src/a' -> '/t/a'");
}

#[test]
fn handled_link_reports_its_paths() {
    let outcome = handle_link("/src/.bashrc", "/home/u", &LinkAction::Link, true, TargetState::Absent);
    assert_eq!(outcome.report("/src/.bashrc"), "[SIMULATE] linking '/src/.bashrc' -> '/home/u/.bashrc'");
    let outcome = handle_link("/", "/home/u", &LinkAction::Link, true, TargetState::Absent);
    assert_eq!(outcome.report("/"), "skipping '/'  filename not found");
}

#[test]
fn a_path_that_does_not_exist_is_absent() {
    assert_eq!(target_state(false, false), TargetState::Absent);
    assert_eq!(target_state(false, true), TargetState::Absent);
    assert_eq!(target_state(true, true), TargetState::Symlink);
    assert_eq!(target_state(true, false), TargetState::Other);
}
