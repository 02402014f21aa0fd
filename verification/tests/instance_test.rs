use crdb_harness::instance::{CleanupAction, CleanupError, CleanupEvent, DropPlan};
use crdb_harness::start::{ListenFile, StartAction, StartEvent, StartOutcome};
use crdb_harness::{CockroachInstance, CockroachStarterBuilder};

fn instance() -> CockroachInstance {
    let starter = CockroachStarterBuilder::new_raw("cmd").build("/tmp/x");
    let mut run = starter.start("bin", "v1");
    run.step(StartEvent::Spawned(Ok(5)));
    let url = "postgresql://root@[::1]:45913/defaultdb?sslmode=disable\n";
    let event = StartEvent::FileRead(ListenFile::Contents(String::from(url)));
    match run.step(event) {
        StartAction::Finish(StartOutcome::Started(instance)) => instance,
        other => panic!("unexpected action: {:?}", other),
    }
}

#[test]
fn cleanup_kills_waits_and_removes() {
    let mut instance = instance();
    assert_eq!(instance.pid(), 5);
    assert_eq!(instance.cleanup(CleanupEvent::Begin), CleanupAction::Kill);
    assert_eq!(
        instance.cleanup(CleanupEvent::Killed(true)),
        CleanupAction::Wait
    );
    assert_eq!(
        instance.cleanup(CleanupEvent::Waited(Ok(()))),
        CleanupAction::RemoveTempDir
    );
    assert_eq!(
        instance.cleanup(CleanupEvent::Removed(Ok(()))),
        CleanupAction::Finish(Ok(()))
    );
    // Nothing is left to do.
    assert_eq!(
        instance.cleanup(CleanupEvent::Begin),
        CleanupAction::Finish(Ok(()))
    );
    assert_eq!(instance.drop_plan(), None);
    assert_eq!(instance.temp_dir(), "/tmp/x");
}

#[test]
fn cleanup_can_be_tried_again_after_a_failed_kill() {
    let mut instance = instance();
    instance.cleanup(CleanupEvent::Begin);
    assert_eq!(
        instance.cleanup(CleanupEvent::Killed(false)),
        CleanupAction::Finish(Err(CleanupError::Kill))
    );
    assert_eq!(
        CleanupError::Kill.to_string(),
        "Failed to send SIGKILL to DB"
    );
    assert_eq!(instance.cleanup(CleanupEvent::Begin), CleanupAction::Kill);
}

#[test]
fn cleanup_can_be_tried_again_after_a_failed_wait() {
    let mut instance = instance();
    instance.cleanup(CleanupEvent::Begin);
    instance.cleanup(CleanupEvent::Killed(true));
    let error = CleanupError::Wait {
        source: String::from("why"),
    };
    assert_eq!(error.to_string(), "waiting for child process");
    assert_eq!(
        instance.cleanup(CleanupEvent::Waited(Err(String::from("why")))),
        CleanupAction::Finish(Err(error))
    );
    assert_eq!(instance.cleanup(CleanupEvent::Begin), CleanupAction::Kill);
}

#[test]
fn temporary_directory_is_given_up_even_if_it_stays() {
    let mut instance = instance();
    instance.cleanup(CleanupEvent::Begin);
    instance.cleanup(CleanupEvent::Killed(true));
    instance.cleanup(CleanupEvent::Waited(Ok(())));
    let error = CleanupError::TempDir {
        source: String::from("why"),
    };
    assert_eq!(error.to_string(), "cleaning up temporary directory");
    assert_eq!(
        instance.cleanup(CleanupEvent::Removed(Err(String::from("why")))),
        CleanupAction::Finish(Err(error))
    );
    assert_eq!(
        instance.cleanup(CleanupEvent::Begin),
        CleanupAction::Finish(Ok(()))
    );
    assert_eq!(instance.drop_plan(), None);
}

#[test]
fn dropped_instance_removes_its_directory() {
    let mut instance = instance();
    assert_eq!(
        instance.drop_plan(),
        Some(DropPlan {
            kill: true,
            remove_temp_dir: true,
        })
    );
    assert_eq!(
        instance.drop_plan(),
        Some(DropPlan {
            kill: true,
            remove_temp_dir: false,
        })
    );
}
