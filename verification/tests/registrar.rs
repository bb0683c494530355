use auto_fuzz_test::manifest::{entry_text, new_manifest, reads_back};
use auto_fuzz_test::registrar::{Action, Event, Failure, Outcome, Phase, Registrar};

fn failed(failure: Failure) -> Action {
    Action::Done(Outcome::Failed(failure))
}

#[test]
fn a_new_file_gets_the_whole_manifest() {
    let mut registrar = Registrar::new("test-lib", "foo");
    assert_eq!(registrar.phase(), Phase::Creating);
    assert_eq!(registrar.step(Event::Created), Action::Lock);
    assert_eq!(registrar.phase(), Phase::Locking { fresh: true });
    assert_eq!(registrar.step(Event::Locked), Action::Write(new_manifest("test-lib", "foo")));
    assert_eq!(registrar.phase(), Phase::Writing);
    assert_eq!(registrar.step(Event::Written), Action::Unlock);
    assert_eq!(registrar.phase(), Phase::Releasing(Outcome::Registered));
    assert_eq!(registrar.step(Event::Unlocked), Action::Done(Outcome::Registered));
    assert_eq!(registrar.phase(), Phase::Finished);
}

#[test]
fn an_existing_file_gets_the_entry_appended() {
    let mut registrar = Registrar::new("test-lib", "bar");
    assert_eq!(registrar.step(Event::AlreadyExists), Action::OpenExisting);
    assert_eq!(registrar.step(Event::Opened), Action::Lock);
    assert_eq!(registrar.step(Event::Locked), Action::Read);
    assert_eq!(registrar.phase(), Phase::Reading);
    assert_eq!(
        registrar.step(Event::Contents(new_manifest("test-lib", "foo"))),
        Action::Write(entry_text("bar"))
    );
    assert_eq!(registrar.step(Event::Written), Action::Unlock);
    assert_eq!(registrar.step(Event::Unlocked), Action::Done(Outcome::Registered));
}

#[test]
fn a_known_target_is_not_written_again() {
    let mut registrar = Registrar::new("test-lib", "foo");
    registrar.step(Event::AlreadyExists);
    registrar.step(Event::Opened);
    registrar.step(Event::Locked);
    assert_eq!(
        registrar.step(Event::Contents(new_manifest("test-lib", "foo"))),
        Action::Unlock
    );
    assert_eq!(registrar.step(Event::Unlocked), Action::Done(Outcome::Registered));
}

#[test]
fn a_corrupt_manifest_is_unlocked_and_refused() {
    let mut registrar = Registrar::new("test-lib", "foo");
    registrar.step(Event::AlreadyExists);
    registrar.step(Event::Opened);
    registrar.step(Event::Locked);
    let garbled = new_manifest("test-lib", "foo") + "\nno second line\n";
    assert_eq!(registrar.step(Event::Contents(garbled)), Action::Unlock);
    assert_eq!(registrar.phase(), Phase::Releasing(Outcome::Failed(Failure::Corrupt)));
    assert_eq!(registrar.step(Event::Unlocked), failed(Failure::Corrupt));
}

#[test]
fn failures_without_the_lock_end_at_once() {
    let mut registrar = Registrar::new("test-lib", "foo");
    assert_eq!(registrar.step(Event::Failed), failed(Failure::Io));
    assert_eq!(registrar.phase(), Phase::Finished);

    let mut registrar = Registrar::new("test-lib", "foo");
    registrar.step(Event::AlreadyExists);
    assert_eq!(registrar.step(Event::Failed), failed(Failure::Io));

    let mut registrar = Registrar::new("test-lib", "foo");
    registrar.step(Event::Created);
    assert_eq!(registrar.step(Event::Failed), failed(Failure::Io));
}

#[test]
fn failures_under_the_lock_release_it_first() {
    let mut registrar = Registrar::new("test-lib", "foo");
    registrar.step(Event::AlreadyExists);
    registrar.step(Event::Opened);
    registrar.step(Event::Locked);
    assert_eq!(registrar.step(Event::Failed), Action::Unlock);
    assert_eq!(registrar.step(Event::Unlocked), failed(Failure::Io));

    let mut registrar = Registrar::new("test-lib", "foo");
    registrar.step(Event::Created);
    registrar.step(Event::Locked);
    assert_eq!(registrar.step(Event::Failed), Action::Unlock);
    assert_eq!(registrar.step(Event::Failed), failed(Failure::Io));

    let mut registrar = Registrar::new("test-lib", "foo");
    registrar.step(Event::Created);
    registrar.step(Event::Locked);
    registrar.step(Event::Written);
    assert_eq!(registrar.step(Event::Failed), failed(Failure::Io));
}

#[test]
fn reports_out_of_turn_fail_the_registration() {
    let mut registrar = Registrar::new("test-lib", "foo");
    assert_eq!(registrar.step(Event::Locked), failed(Failure::OutOfTurn));
    assert_eq!(registrar.step(Event::Created), failed(Failure::OutOfTurn));

    let mut registrar = Registrar::new("test-lib", "foo");
    registrar.step(Event::Created);
    registrar.step(Event::Locked);
    assert_eq!(registrar.step(Event::Opened), Action::Unlock);
    assert_eq!(registrar.step(Event::Unlocked), failed(Failure::OutOfTurn));
}

#[test]
fn names_that_read_back() {
    assert!(reads_back("foo"));
    assert!(reads_back("mod1__mod2__Owner_go"));
    assert!(reads_back(""));
    assert!(!reads_back("with\"quote"));
    assert!(!reads_back("back\\slash"));
    assert!(!reads_back("two\nlines"));
}
