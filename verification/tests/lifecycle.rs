use image_processor::engine::machine::Engine;
use image_processor::engine::model::Stage;
use image_processor::engine::protocol::{Command, Event, Operation, TransformOutcome};
use image_processor::error::ProcessorError;
use image_processor::event::{CompletionEvent, VariantRecord};
use image_processor::format::DecoderBackend;
use image_processor::job::{Job, Limits, Task};
use image_processor::transport::TransportError;
use image_processor::variant::{ImageFormat, Variant, VariantRequest};

const ID: u128 = 1873526660931231682191479120471901695;
const ID_TEXT: &str = "01D39ZY06FGSCTVN4T2V9PKHFZ";
const PNG: &[u8] = b"\x89PNG\r\n\x1a\n\x00\x00\x00\rIHDR";

fn job(limits: Option<Limits>) -> Job {
    Job {
        id: ID,
        task: Task {
            input_path: "uploads/cat.png".to_string(),
            output_prefix: "avatars/".to_string(),
            callback_subject: "image_processor.done".to_string(),
            limits,
        },
    }
}

fn two_variants() -> Vec<Variant> {
    vec![
        Variant {
            data: vec![1, 2, 3],
            width: 64,
            height: 48,
            request: VariantRequest { scale: 1, format: ImageFormat::Webp },
        },
        Variant {
            data: vec![4, 5, 6, 7, 8],
            width: 128,
            height: 96,
            request: VariantRequest { scale: 2, format: ImageFormat::PngStatic },
        },
    ]
}

fn workspace() -> String {
    format!("/var/work/{}", ID_TEXT)
}

fn finish(outcome: Result<(), ProcessorError>) -> Command {
    Command::Finish { outcome, workspace: workspace() }
}

/// Drives a fresh engine up to the point where the transform is in flight.
fn engine_transforming(limits: Option<Limits>) -> Engine {
    let mut engine = Engine::new(job(limits), "/var/work");
    assert_eq!(
        engine.step(Event::Begin),
        Command::Perform(Operation::CreateWorkspace { path: workspace() })
    );
    assert_eq!(
        engine.step(Event::WorkspaceCreated { ok: true }),
        Command::Perform(Operation::CreateInput { path: format!("{}/input", workspace()) })
    );
    assert_eq!(
        engine.step(Event::InputCreated { ok: true }),
        Command::Perform(Operation::Download {
            object: "uploads/cat.png".to_string(),
            destination: format!("{}/input", workspace()),
        })
    );
    assert_eq!(
        engine.step(Event::Downloaded { response: Some(200) }),
        Command::Perform(Operation::ReadInput { path: format!("{}/input", workspace()) })
    );
    assert_eq!(
        engine.step(Event::InputRead { content: Some(PNG.to_vec()) }),
        Command::Perform(Operation::Transform {
            backend: DecoderBackend::Ffmpeg,
            input: format!("{}/input", workspace()),
        })
    );
    assert_eq!(engine.stage(), Stage::Transforming);
    engine
}

#[test]
fn two_variants_are_stored_and_announced_once() {
    let mut engine = engine_transforming(None);
    let mut publishes = 0;
    let mut deletes = 0;

    let first = engine.step(Event::Transformed {
        outcome: TransformOutcome::Produced(two_variants()),
    });
    assert_eq!(
        first,
        Command::Perform(Operation::Upload {
            index: 0,
            key: format!("result/avatars/{}/1x.webp", ID_TEXT),
            content_type: "image/webp".to_string(),
        })
    );
    assert_eq!(engine.variants()[0].data, vec![1, 2, 3]);

    let second = engine.step(Event::Uploaded { response: Some(200) });
    assert_eq!(
        second,
        Command::Perform(Operation::Upload {
            index: 1,
            key: format!("result/avatars/{}/static_2x.png", ID_TEXT),
            content_type: "image/png".to_string(),
        })
    );
    assert_eq!(engine.uploaded(), 1);

    let publish = engine.step(Event::Uploaded { response: Some(200) });
    if let Command::Perform(Operation::Publish { .. }) = publish {
        publishes += 1;
    }
    assert_eq!(
        publish,
        Command::Perform(Operation::Publish {
            subject: "image_processor.done".to_string(),
            event: CompletionEvent {
                job_id: ID,
                variants: vec![
                    VariantRecord {
                        path: format!("result/avatars/{}/1x.webp", ID_TEXT),
                        format: ImageFormat::Webp,
                        width: 64,
                        height: 48,
                        byte_size: 3,
                        scale: 1,
                    },
                    VariantRecord {
                        path: format!("result/avatars/{}/static_2x.png", ID_TEXT),
                        format: ImageFormat::PngStatic,
                        width: 128,
                        height: 96,
                        byte_size: 5,
                        scale: 2,
                    },
                ],
            },
        })
    );
    assert_eq!(engine.uploaded(), 2);

    let delete = engine.step(Event::Published { ok: true });
    if let Command::Perform(Operation::DeleteRecord { .. }) = delete {
        deletes += 1;
    }
    assert_eq!(delete, Command::Perform(Operation::DeleteRecord { id: ID }));
    assert_eq!(engine.outcome(), None);

    assert_eq!(engine.step(Event::Deleted { ok: true }), finish(Ok(())));
    assert_eq!(engine.outcome(), Some(Ok(())));
    assert_eq!(engine.stage(), Stage::Done);
    assert_eq!(publishes, 1);
    assert_eq!(deletes, 1);
}

#[test]
fn download_404_is_a_transport_error() {
    let mut engine = Engine::new(job(None), "/var/work");
    engine.step(Event::Begin);
    engine.step(Event::WorkspaceCreated { ok: true });
    engine.step(Event::InputCreated { ok: true });
    let command = engine.step(Event::Downloaded { response: Some(404) });
    assert_eq!(command, finish(Err(ProcessorError::Download(TransportError::HttpFail))));
    assert_eq!(
        engine.outcome(),
        Some(Err(ProcessorError::Download(TransportError::HttpFail)))
    );
    // Nothing was read, transformed, stored, published or deleted.
    assert_eq!(engine.stage(), Stage::Downloading);
    assert_eq!(engine.step(Event::InputRead { content: Some(PNG.to_vec()) }), Command::Ignored);
    assert_eq!(engine.step(Event::Deleted { ok: true }), Command::Ignored);
    assert_eq!(engine.workspace(), workspace());
}

#[test]
fn deadline_during_a_slow_transform_fails_the_job() {
    let mut engine = engine_transforming(Some(Limits { max_processing_time_ms: 50 }));
    assert_eq!(engine.job().deadline_ms(), Some(50));
    assert_eq!(
        engine.step(Event::DeadlineElapsed),
        finish(Err(ProcessorError::TimeLimitExceeded))
    );
    // The transform ends much later; the outcome stands.
    assert_eq!(
        engine.step(Event::Transformed { outcome: TransformOutcome::Produced(two_variants()) }),
        Command::Ignored
    );
    assert_eq!(engine.outcome(), Some(Err(ProcessorError::TimeLimitExceeded)));
    assert_eq!(engine.stage(), Stage::Transforming);
    assert_eq!(engine.variants().len(), 0);
}

#[test]
fn second_upload_500_publishes_nothing() {
    let mut engine = engine_transforming(None);
    let mut commands = Vec::new();
    commands.push(engine.step(Event::Transformed {
        outcome: TransformOutcome::Produced(two_variants()),
    }));
    commands.push(engine.step(Event::Uploaded { response: Some(200) }));
    commands.push(engine.step(Event::Uploaded { response: Some(500) }));
    commands.push(engine.step(Event::Published { ok: true }));
    commands.push(engine.step(Event::Deleted { ok: true }));
    assert_eq!(commands[2], finish(Err(ProcessorError::Upload(TransportError::HttpFail))));
    assert_eq!(commands[3], Command::Ignored);
    assert_eq!(commands[4], Command::Ignored);
    let publishes = commands
        .iter()
        .filter(|c| matches!(c, Command::Perform(Operation::Publish { .. })))
        .count();
    let deletes = commands
        .iter()
        .filter(|c| matches!(c, Command::Perform(Operation::DeleteRecord { .. })))
        .count();
    assert_eq!(publishes, 0);
    assert_eq!(deletes, 0);
    assert_eq!(engine.outcome(), Some(Err(ProcessorError::Upload(TransportError::HttpFail))));
    assert_eq!(engine.uploaded(), 1);
}

#[test]
fn refresh_failure_while_the_transform_runs() {
    let mut engine = engine_transforming(None);
    assert_eq!(engine.step(Event::Tick), Command::RefreshLease { id: ID });
    assert!(engine.is_refreshing());
    // The transform ends while the renewal is in flight: its report is
    // kept, and nothing is uploaded.
    assert_eq!(
        engine.step(Event::Transformed { outcome: TransformOutcome::Produced(two_variants()) }),
        Command::Held
    );
    assert_eq!(
        engine.step(Event::Refreshed { ok: false }),
        finish(Err(ProcessorError::LeaseRefresh))
    );
    // Whatever the transform brings afterwards, the outcome stands.
    assert_eq!(
        engine.step(Event::Transformed { outcome: TransformOutcome::Produced(two_variants()) }),
        Command::Ignored
    );
    assert_eq!(
        engine.step(Event::Transformed { outcome: TransformOutcome::Failed }),
        Command::Ignored
    );
    assert_eq!(engine.outcome(), Some(Err(ProcessorError::LeaseRefresh)));
    assert_eq!(engine.stage(), Stage::Transforming);
}
