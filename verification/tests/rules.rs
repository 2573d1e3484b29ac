use image_processor::engine::machine::Engine;
use image_processor::engine::model::Stage;
use image_processor::engine::protocol::{Command, Event, Operation, TransformOutcome};
use image_processor::error::ProcessorError;
use image_processor::event::CompletionEvent;
use image_processor::format::DecoderBackend;
use image_processor::job::{Job, Limits, Task};
use image_processor::transport::TransportError;
use image_processor::variant::{ImageFormat, Variant, VariantRequest};

const WEBP: &[u8] = b"RIFF\x24\x00\x00\x00WEBPVP8 ";

fn job_with(id: u128, limits: Option<Limits>) -> Job {
    Job {
        id,
        task: Task {
            input_path: "in/object".to_string(),
            output_prefix: "out/".to_string(),
            callback_subject: "done".to_string(),
            limits,
        },
    }
}

fn variants(count: usize) -> Vec<Variant> {
    (0..count)
        .map(|i| Variant {
            data: vec![i as u8; i + 1],
            width: 10 * (i + 1),
            height: 5 * (i + 1),
            request: VariantRequest { scale: i + 1, format: ImageFormat::Webp },
        })
        .collect()
}

/// The events of a run in which everything outside succeeds.
fn happy_events(count: usize) -> Vec<Event> {
    let mut events = vec![
        Event::Begin,
        Event::WorkspaceCreated { ok: true },
        Event::InputCreated { ok: true },
        Event::Downloaded { response: Some(200) },
        Event::InputRead { content: Some(WEBP.to_vec()) },
        Event::Transformed { outcome: TransformOutcome::Produced(variants(count)) },
    ];
    for _ in 0..count {
        events.push(Event::Uploaded { response: Some(201) });
    }
    events.push(Event::Published { ok: true });
    events.push(Event::Deleted { ok: true });
    events
}

fn run(engine: &mut Engine, events: Vec<Event>) -> Vec<Command> {
    events.into_iter().map(|event| engine.step(event)).collect()
}

fn count(commands: &[Command], wanted: fn(&Command) -> bool) -> usize {
    commands.iter().filter(|c| wanted(c)).count()
}

fn is_publish(command: &Command) -> bool {
    matches!(command, Command::Perform(Operation::Publish { .. }))
}

fn is_delete(command: &Command) -> bool {
    matches!(command, Command::Perform(Operation::DeleteRecord { .. }))
}

fn is_upload(command: &Command) -> bool {
    matches!(command, Command::Perform(Operation::Upload { .. }))
}

fn is_perform(command: &Command) -> bool {
    matches!(command, Command::Perform(_))
}

fn is_finish(command: &Command) -> bool {
    matches!(command, Command::Finish { .. })
}

/// An engine that has taken the first `steps` events of the happy run.
fn engine_after(steps: usize, count: usize, limits: Option<Limits>) -> Engine {
    let mut engine = Engine::new(job_with(9, limits), "w");
    for event in happy_events(count).into_iter().take(steps) {
        assert!(is_perform(&engine.step(event)));
    }
    engine
}

fn finish(outcome: Result<(), ProcessorError>) -> Command {
    Command::Finish { outcome, workspace: "w/00000000000000000000000009".to_string() }
}

#[test]
fn a_new_engine_is_idle() {
    let engine = Engine::new(job_with(9, None), "w");
    assert_eq!(engine.stage(), Stage::Idle);
    assert_eq!(engine.outcome(), None);
    assert!(!engine.is_refreshing());
    assert!(!engine.holds_report());
    assert_eq!(engine.detected_format(), None);
    assert_eq!(engine.uploaded(), 0);
    assert!(engine.variants().is_empty());
    assert_eq!(engine.workspace(), "w/00000000000000000000000009");
    assert_eq!(engine.job(), &job_with(9, None));
}

#[test]
fn the_stages_follow_each_other() {
    let mut engine = Engine::new(job_with(9, None), "w");
    let expected = [
        Stage::CreatingWorkspace,
        Stage::CreatingInput,
        Stage::Downloading,
        Stage::Classifying,
        Stage::Transforming,
        Stage::Uploading,
        Stage::Uploading,
        Stage::Publishing,
        Stage::Deleting,
        Stage::Done,
    ];
    for (event, stage) in happy_events(2).into_iter().zip(expected) {
        engine.step(event);
        assert_eq!(engine.stage(), stage);
    }
    assert_eq!(engine.outcome(), Some(Ok(())));
}

#[test]
fn effects_are_atomic_on_a_successful_run() {
    for produced in [0usize, 1, 2, 5] {
        let mut engine = Engine::new(job_with(9, None), "w");
        let commands = run(&mut engine, happy_events(produced));
        assert_eq!(count(&commands, is_upload), produced);
        assert_eq!(count(&commands, is_publish), 1);
        assert_eq!(count(&commands, is_delete), 1);
        assert_eq!(count(&commands, is_finish), 1);
        assert_eq!(commands.last(), Some(&finish(Ok(()))));
        assert_eq!(engine.uploaded(), produced);
        assert_eq!(engine.outcome(), Some(Ok(())));
        // The publication is ordered by the very step that confirms the last upload.
        assert!(is_publish(&commands[5 + produced]));
        assert!(is_delete(&commands[6 + produced]));
    }
}

#[test]
fn no_variants_means_an_event_without_records() {
    let mut engine = engine_after(5, 0, None);
    let command = engine.step(Event::Transformed {
        outcome: TransformOutcome::Produced(Vec::new()),
    });
    assert_eq!(
        command,
        Command::Perform(Operation::Publish {
            subject: "done".to_string(),
            event: CompletionEvent { job_id: 9, variants: Vec::new() },
        })
    );
    assert_eq!(engine.stage(), Stage::Publishing);
}

#[test]
fn uploads_are_ordered_one_by_one_in_order() {
    let mut engine = engine_after(5, 3, None);
    let mut command = engine.step(Event::Transformed {
        outcome: TransformOutcome::Produced(variants(3)),
    });
    for index in 0..3usize {
        assert_eq!(
            command,
            Command::Perform(Operation::Upload {
                index,
                key: format!("result/out/00000000000000000000000009/{}x.webp", index + 1),
                content_type: "image/webp".to_string(),
            })
        );
        assert_eq!(engine.uploaded(), index);
        assert_eq!(engine.variants()[index].data, vec![index as u8; index + 1]);
        command = engine.step(Event::Uploaded { response: Some(200) });
    }
    assert!(is_publish(&command));
}

#[test]
fn a_rejected_upload_ends_the_job_without_publication() {
    for failing in 0..3usize {
        for response in [Some(500u16), Some(404), Some(199), Some(300), None] {
            let mut engine = engine_after(6, 3, None);
            let mut commands = Vec::new();
            for _ in 0..failing {
                commands.push(engine.step(Event::Uploaded { response: Some(200) }));
            }
            commands.push(engine.step(Event::Uploaded { response }));
            commands.push(engine.step(Event::Uploaded { response: Some(200) }));
            commands.push(engine.step(Event::Published { ok: true }));
            commands.push(engine.step(Event::Deleted { ok: true }));
            let failure = if response.is_none() {
                TransportError::Request
            } else {
                TransportError::HttpFail
            };
            assert_eq!(commands[failing], finish(Err(ProcessorError::Upload(failure))));
            assert_eq!(count(&commands, is_publish), 0);
            assert_eq!(count(&commands, is_delete), 0);
            assert_eq!(count(&commands, is_upload), failing);
            assert_eq!(engine.uploaded(), failing);
            assert_eq!(engine.outcome(), Some(Err(ProcessorError::Upload(failure))));
        }
    }
}

#[test]
fn every_stage_failure_ends_the_job_with_its_error() {
    let cases: Vec<(usize, Event, ProcessorError)> = vec![
        (1, Event::WorkspaceCreated { ok: false }, ProcessorError::DirectoryCreate),
        (2, Event::InputCreated { ok: false }, ProcessorError::FileCreate),
        (
            3,
            Event::Downloaded { response: None },
            ProcessorError::Download(TransportError::Request),
        ),
        (
            3,
            Event::Downloaded { response: Some(403) },
            ProcessorError::Download(TransportError::HttpFail),
        ),
        (4, Event::InputRead { content: None }, ProcessorError::FileFormat),
        (
            4,
            Event::InputRead { content: Some(b"not an image".to_vec()) },
            ProcessorError::UnsupportedInputFormat,
        ),
        (5, Event::Transformed { outcome: TransformOutcome::Failed }, ProcessorError::Backend),
        (
            5,
            Event::Transformed { outcome: TransformOutcome::NotScheduled },
            ProcessorError::BlockingTaskSpawn,
        ),
        (
            6,
            Event::Uploaded { response: Some(503) },
            ProcessorError::Upload(TransportError::HttpFail),
        ),
        (7, Event::Uploaded { response: None }, ProcessorError::Upload(TransportError::Request)),
        (8, Event::Published { ok: false }, ProcessorError::Publish),
        (9, Event::Deleted { ok: false }, ProcessorError::RecordDelete),
    ];
    for (steps, event, error) in cases {
        let mut engine = engine_after(steps, 2, None);
        let stage = engine.stage();
        assert_eq!(engine.step(event), finish(Err(error)));
        assert_eq!(engine.outcome(), Some(Err(error)));
        assert_eq!(engine.stage(), stage);
        // Short circuit: the rest of the happy run is ignored.
        for later in happy_events(2) {
            assert_eq!(engine.step(later), Command::Ignored);
        }
        assert_eq!(engine.outcome(), Some(Err(error)));
    }
}

#[test]
fn the_engine_keeps_the_name_of_the_format_it_found() {
    let mut refused = engine_after(4, 2, None);
    assert_eq!(refused.detected_format(), None);
    assert_eq!(
        refused.step(Event::InputRead { content: Some(b"%PDF-1.7".to_vec()) }),
        finish(Err(ProcessorError::UnsupportedInputFormat))
    );
    assert_eq!(refused.detected_format(), Some("PortableDocumentFormat"));

    let mut taken = engine_after(4, 2, None);
    assert!(is_perform(&taken.step(Event::InputRead { content: Some(WEBP.to_vec()) })));
    assert_eq!(taken.detected_format(), Some("Webp"));

    let mut unread = engine_after(4, 2, None);
    assert_eq!(
        unread.step(Event::InputRead { content: None }),
        finish(Err(ProcessorError::FileFormat))
    );
    assert_eq!(unread.detected_format(), None);
}

#[test]
fn a_failed_publication_leaves_the_record() {
    let mut engine = engine_after(8, 2, None);
    let mut commands = vec![engine.step(Event::Published { ok: false })];
    commands.push(engine.step(Event::Deleted { ok: true }));
    assert_eq!(commands[0], finish(Err(ProcessorError::Publish)));
    assert_eq!(count(&commands, is_delete), 0);
}

#[test]
fn the_backend_follows_the_content() {
    let cases: [(&[u8], DecoderBackend); 3] = [
        (WEBP, DecoderBackend::LibWebp),
        (b"\x00\x00\x00\x1cftypavif", DecoderBackend::LibAvif),
        (b"GIF89a", DecoderBackend::Ffmpeg),
    ];
    for (content, backend) in cases {
        let mut engine = engine_after(4, 1, None);
        assert_eq!(
            engine.step(Event::InputRead { content: Some(content.to_vec()) }),
            Command::Perform(Operation::Transform {
                backend,
                input: "w/00000000000000000000000009/input".to_string(),
            })
        );
    }
}

#[test]
fn events_out_of_turn_change_nothing() {
    for steps in 0..10usize {
        let events = happy_events(2);
        for (position, event) in events.iter().enumerate() {
            if *event == events[steps] {
                continue;
            }
            let mut engine = engine_after(steps, 2, None);
            let stage = engine.stage();
            let uploaded = engine.uploaded();
            assert_eq!(engine.step(event.clone()), Command::Ignored);
            assert_eq!(engine.stage(), stage);
            assert_eq!(engine.uploaded(), uploaded);
            assert_eq!(engine.outcome(), None);
        }
    }
}

#[test]
fn a_tick_orders_a_renewal_and_the_pipeline_rests() {
    for steps in 0..10usize {
        let mut engine = engine_after(steps, 2, None);
        let stage = engine.stage();
        assert_eq!(engine.step(Event::Tick), Command::RefreshLease { id: 9 });
        assert!(engine.is_refreshing());
        // While the renewal is in flight no further renewal is ordered, and
        // what the pipeline does not wait for is ignored.
        assert_eq!(engine.step(Event::Tick), Command::Ignored);
        assert_eq!(engine.step(Event::DeadlineElapsed), Command::Ignored);
        for (position, event) in happy_events(2).into_iter().enumerate() {
            if event != happy_events(2)[steps] {
                assert_eq!(engine.step(event), Command::Ignored, "{} {}", steps, position);
            }
        }
        assert_eq!(engine.stage(), stage);
        assert_eq!(engine.outcome(), None);
        assert!(!engine.holds_report());
        assert_eq!(engine.step(Event::Refreshed { ok: true }), Command::Resume);
        assert!(!engine.is_refreshing());
        // The pipeline goes on where it rested.
        let next = happy_events(2).into_iter().nth(steps).unwrap();
        let command = engine.step(next);
        assert!(is_perform(&command) || is_finish(&command));
    }
}

#[test]
fn a_report_during_a_renewal_is_kept_and_acted_on_after_it() {
    for steps in 0..10usize {
        let mut direct = engine_after(steps, 2, None);
        let expected = direct.step(happy_events(2).into_iter().nth(steps).unwrap());

        let mut engine = engine_after(steps, 2, None);
        let stage = engine.stage();
        let uploaded = engine.uploaded();
        assert_eq!(engine.step(Event::Tick), Command::RefreshLease { id: 9 });
        let report = happy_events(2).into_iter().nth(steps).unwrap();
        assert_eq!(engine.step(report.clone()), Command::Held);
        assert!(engine.holds_report());
        // Nothing has moved yet, and a second report is not taken.
        assert_eq!(engine.stage(), stage);
        assert_eq!(engine.uploaded(), uploaded);
        assert_eq!(engine.outcome(), None);
        assert_eq!(engine.step(report), Command::Ignored);
        assert_eq!(engine.step(Event::Tick), Command::Ignored);
        // The renewal returns: the pipeline does what it would have done.
        assert_eq!(engine.step(Event::Refreshed { ok: true }), expected);
        assert!(!engine.is_refreshing());
        assert!(!engine.holds_report());
        assert_eq!(engine.stage(), direct.stage());
        assert_eq!(engine.uploaded(), direct.uploaded());
        assert_eq!(engine.outcome(), direct.outcome());
    }
}

#[test]
fn a_kept_failure_ends_the_job_after_the_renewal() {
    let mut engine = engine_after(6, 2, None);
    assert_eq!(engine.step(Event::Tick), Command::RefreshLease { id: 9 });
    assert_eq!(engine.step(Event::Uploaded { response: Some(500) }), Command::Held);
    assert_eq!(engine.outcome(), None);
    assert_eq!(
        engine.step(Event::Refreshed { ok: true }),
        finish(Err(ProcessorError::Upload(TransportError::HttpFail)))
    );
}

#[test]
fn a_failed_renewal_outweighs_a_kept_report() {
    for steps in 0..10usize {
        let mut engine = engine_after(steps, 2, None);
        let stage = engine.stage();
        let mut commands = vec![engine.step(Event::Tick)];
        commands.push(engine.step(happy_events(2).into_iter().nth(steps).unwrap()));
        commands.push(engine.step(Event::Refreshed { ok: false }));
        commands.extend(run(&mut engine, happy_events(2)));
        assert_eq!(commands[1], Command::Held);
        assert_eq!(commands[2], finish(Err(ProcessorError::LeaseRefresh)));
        assert_eq!(count(&commands, is_perform), 0);
        assert_eq!(engine.outcome(), Some(Err(ProcessorError::LeaseRefresh)));
        assert_eq!(engine.stage(), stage);
    }
}

#[test]
fn the_deadline_ends_the_job_during_a_renewal() {
    for steps in 0..10usize {
        for kept in [false, true] {
            for renewed in [false, true] {
                let limits = Some(Limits { max_processing_time_ms: 5 });
                let mut engine = engine_after(steps, 2, limits);
                let mut commands = vec![engine.step(Event::Tick)];
                if kept {
                    commands.push(engine.step(happy_events(2).into_iter().nth(steps).unwrap()));
                }
                let deadline = engine.step(Event::DeadlineElapsed);
                assert_eq!(deadline, finish(Err(ProcessorError::TimeLimitExceeded)));
                commands.push(engine.step(Event::Refreshed { ok: renewed }));
                commands.extend(run(&mut engine, happy_events(2)));
                assert_eq!(commands[0], Command::RefreshLease { id: 9 });
                assert_eq!(count(&commands, is_perform), 0);
                assert_eq!(count(&commands, is_finish), 0);
                assert_eq!(engine.outcome(), Some(Err(ProcessorError::TimeLimitExceeded)));
            }
        }
    }
}

#[test]
fn the_deadline_during_a_renewal_is_never_a_success() {
    // The deletion is in flight, a renewal is in flight, the deadline passes,
    // the renewal succeeds and the deletion is reported as done.
    let mut engine = engine_after(9, 2, Some(Limits { max_processing_time_ms: 50 }));
    assert_eq!(engine.step(Event::Tick), Command::RefreshLease { id: 9 });
    assert_eq!(
        engine.step(Event::DeadlineElapsed),
        finish(Err(ProcessorError::TimeLimitExceeded))
    );
    assert_eq!(engine.step(Event::Refreshed { ok: true }), Command::Ignored);
    assert_eq!(engine.step(Event::Deleted { ok: true }), Command::Ignored);
    assert_eq!(engine.outcome(), Some(Err(ProcessorError::TimeLimitExceeded)));
}

#[test]
fn a_failed_renewal_ends_the_job_at_every_stage() {
    for steps in 0..10usize {
        let mut engine = engine_after(steps, 2, None);
        let stage = engine.stage();
        let mut commands = vec![engine.step(Event::Tick)];
        commands.push(engine.step(Event::Refreshed { ok: false }));
        commands.extend(run(&mut engine, happy_events(2)));
        assert_eq!(commands[1], finish(Err(ProcessorError::LeaseRefresh)));
        assert_eq!(count(&commands, is_perform), 0);
        assert_eq!(count(&commands, is_finish), 1);
        assert_eq!(engine.outcome(), Some(Err(ProcessorError::LeaseRefresh)));
        assert_eq!(engine.stage(), stage);
    }
}

#[test]
fn a_renewal_report_without_a_renewal_is_ignored() {
    let mut engine = engine_after(3, 2, None);
    assert_eq!(engine.step(Event::Refreshed { ok: false }), Command::Ignored);
    assert_eq!(engine.step(Event::Refreshed { ok: true }), Command::Ignored);
    assert_eq!(engine.outcome(), None);
}

#[test]
fn the_deadline_ends_the_job_at_every_stage() {
    for steps in 0..10usize {
        let mut engine = engine_after(steps, 2, Some(Limits { max_processing_time_ms: 50 }));
        let stage = engine.stage();
        let mut commands = vec![engine.step(Event::DeadlineElapsed)];
        commands.extend(run(&mut engine, happy_events(2)));
        assert_eq!(commands[0], finish(Err(ProcessorError::TimeLimitExceeded)));
        assert!(commands[1..].iter().all(|c| *c == Command::Ignored));
        assert_eq!(engine.outcome(), Some(Err(ProcessorError::TimeLimitExceeded)));
        assert_eq!(engine.stage(), stage);
    }
}

#[test]
fn the_deadline_comes_too_late_after_the_end() {
    let mut engine = engine_after(9, 2, Some(Limits { max_processing_time_ms: 50 }));
    assert_eq!(engine.step(Event::Deleted { ok: true }), finish(Ok(())));
    assert_eq!(engine.step(Event::DeadlineElapsed), Command::Ignored);
    assert_eq!(engine.outcome(), Some(Ok(())));
}

#[test]
fn without_limits_there_is_no_deadline() {
    let mut engine = engine_after(5, 2, None);
    assert_eq!(engine.job().deadline_ms(), None);
    assert_eq!(engine.step(Event::DeadlineElapsed), Command::Ignored);
    assert_eq!(engine.outcome(), None);
    assert_eq!(
        engine_after(5, 2, Some(Limits { max_processing_time_ms: 0 })).job().deadline_ms(),
        Some(0)
    );
}

#[test]
fn every_end_orders_the_removal_of_the_workspace_once() {
    let endings: Vec<Vec<Event>> = vec![
        happy_events(2),
        vec![Event::Begin, Event::WorkspaceCreated { ok: false }, Event::Begin],
        vec![Event::Tick, Event::Refreshed { ok: false }, Event::Tick],
        vec![Event::Begin, Event::DeadlineElapsed, Event::DeadlineElapsed],
    ];
    for events in endings {
        let mut engine = Engine::new(job_with(u128::MAX, Some(Limits { max_processing_time_ms: 1 })), "/tmp/");
        let commands = run(&mut engine, events);
        let finishes: Vec<&Command> = commands.iter().filter(|c| is_finish(c)).collect();
        assert_eq!(finishes.len(), 1);
        match finishes[0] {
            Command::Finish { outcome, workspace } => {
                assert_eq!(workspace, "/tmp/7ZZZZZZZZZZZZZZZZZZZZZZZZZ");
                assert_eq!(Some(*outcome), engine.outcome());
            }
            _ => unreachable!(),
        }
    }
}

#[test]
fn before_the_end_nothing_is_removed() {
    let mut engine = Engine::new(job_with(9, None), "w");
    let mut events = happy_events(2);
    events.pop();
    let commands = run(&mut engine, events);
    assert_eq!(count(&commands, is_finish), 0);
    assert_eq!(engine.outcome(), None);
}
