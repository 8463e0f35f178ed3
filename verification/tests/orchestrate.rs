use wcp::address::Location;
use wcp::orchestrate::{
    announcement, name_destination, resolve_as, resolve_destination, CopyState, Resolution,
};

#[test]
fn remote_directory_receives_the_source_name() {
    let source = Location::Local("/b/c/a".into());
    let mut destination = Location::Remote("http://ex.com/dir/".parse().unwrap());
    assert_eq!(resolve_destination(&source, &mut destination), Resolution::Appended);
    assert_eq!(destination.to_text(), "http://ex.com/dir/a");
}

#[test]
fn bare_host_receives_the_source_name() {
    let source = Location::Remote("http://other.org/x/y.bin".parse().unwrap());
    let mut destination = Location::Remote("http://ex.com".parse().unwrap());
    assert_eq!(resolve_destination(&source, &mut destination), Resolution::Appended);
    assert_eq!(destination.to_text(), "http://ex.com/y.bin");
}

#[test]
fn remote_file_destination_is_kept() {
    let source = Location::Local("/b/c/a".into());
    let mut destination = Location::Remote("http://ex.com/dir/file".parse().unwrap());
    assert_eq!(resolve_destination(&source, &mut destination), Resolution::Kept);
    assert_eq!(destination.to_text(), "http://ex.com/dir/file");
}

#[test]
fn local_directory_receives_the_source_name() {
    let dir = tempfile::tempdir().unwrap();
    let dir_text = dir.path().to_str().unwrap().to_string();
    let source = Location::Remote("http://ex.com/files/report.txt".parse().unwrap());
    let mut destination = Location::Local(dir_text.clone());
    assert_eq!(resolve_destination(&source, &mut destination), Resolution::Appended);
    assert_eq!(destination.to_text(), format!("{}/report.txt", dir_text));
}

#[test]
fn local_directory_receives_the_fallback_name() {
    let dir = tempfile::tempdir().unwrap();
    let dir_text = dir.path().to_str().unwrap().to_string();
    let source = Location::Remote("http://ex.com/".parse().unwrap());
    let mut destination = Location::Local(dir_text.clone());
    assert_eq!(resolve_destination(&source, &mut destination), Resolution::Appended);
    assert_eq!(destination.to_text(), format!("{}/index.html", dir_text));
}

#[test]
fn local_file_destination_is_kept() {
    let file = tempfile::NamedTempFile::new().unwrap();
    let file_text = file.path().to_str().unwrap().to_string();
    let source = Location::Remote("http://ex.com/a".parse().unwrap());
    let mut destination = Location::Local(file_text.clone());
    assert_eq!(resolve_destination(&source, &mut destination), Resolution::Kept);
    assert_eq!(destination.to_text(), file_text);
}

#[test]
fn missing_destination_is_kept() {
    let source = Location::Local("/b/c/a".into());
    let mut destination = Location::Local("/path/really/should/not/exist".into());
    assert_eq!(resolve_destination(&source, &mut destination), Resolution::Kept);
    assert_eq!(destination.to_text(), "/path/really/should/not/exist");
}

#[test]
fn source_without_a_name_cannot_fill_a_directory() {
    let source = Location::Local("/".into());
    let mut destination = Location::Remote("http://ex.com/dir/".parse().unwrap());
    assert_eq!(resolve_destination(&source, &mut destination), Resolution::Unnamed);
    assert_eq!(destination.to_text(), "http://ex.com/dir/");
}

#[test]
fn source_without_a_name_can_go_to_a_file() {
    let source = Location::Local("/".into());
    let mut destination = Location::Remote("http://ex.com/dir/file".parse().unwrap());
    assert_eq!(resolve_destination(&source, &mut destination), Resolution::Kept);
}

#[test]
fn name_destination_follows_the_answer_it_is_given() {
    let source = Location::Local("/b/c/a".into());
    let mut destination = Location::Local("/x/y".into());
    name_destination(&source, &mut destination, false);
    assert_eq!(destination.to_text(), "/x/y");
    name_destination(&source, &mut destination, true);
    assert_eq!(destination.to_text(), "/x/y/a");
}

#[test]
fn resolve_as_follows_the_answer_it_is_given() {
    let source = Location::Local("/b/c/a".into());
    let mut destination = Location::Local("/path/really/should/not/exist".into());
    assert_eq!(resolve_as(&source, &mut destination, false), Resolution::Kept);
    assert_eq!(destination.to_text(), "/path/really/should/not/exist");
    assert_eq!(resolve_as(&source, &mut destination, true), Resolution::Appended);
    assert_eq!(destination.to_text(), "/path/really/should/not/exist/a");
}

#[test]
fn resolve_as_leaves_a_directory_unnamed_where_the_source_has_no_name() {
    let source = Location::Local("/".into());
    let mut destination = Location::Local("/tmp".into());
    assert_eq!(resolve_as(&source, &mut destination, true), Resolution::Unnamed);
    assert_eq!(destination.to_text(), "/tmp");
    assert_eq!(resolve_as(&source, &mut destination, false), Resolution::Kept);
    assert_eq!(destination.to_text(), "/tmp");
}

#[test]
fn announcement_names_both_ends() {
    let source = Location::Remote("http://ex.com/a".parse().unwrap());
    let destination = Location::Local("./out/a".into());
    assert_eq!(announcement(&source, &destination), "copying http://ex.com/a to ./out/a");
}

#[test]
fn a_copy_walks_through_its_steps() {
    let mut state = CopyState::start();
    let mut seen = vec![state];
    while !state.ended() {
        state = state.advance(true);
        seen.push(state);
    }
    assert_eq!(
        seen,
        vec![
            CopyState::Resolving,
            CopyState::OpeningSource,
            CopyState::OpeningSink,
            CopyState::Transferring,
            CopyState::Finalizing,
            CopyState::Done,
        ]
    );
}

#[test]
fn any_step_can_fail() {
    let mut state = CopyState::start();
    for _ in 0..5 {
        assert_eq!(state.advance(false), CopyState::Failed);
        state = state.advance(true);
    }
    assert_eq!(state, CopyState::Done);
}

#[test]
fn an_ended_copy_stays_ended() {
    for outcome in [true, false] {
        assert_eq!(CopyState::Done.advance(outcome), CopyState::Done);
        assert_eq!(CopyState::Failed.advance(outcome), CopyState::Failed);
    }
    assert!(CopyState::Done.ended());
    assert!(CopyState::Failed.ended());
    assert!(!CopyState::Transferring.ended());
}
