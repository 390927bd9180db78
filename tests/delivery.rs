use base64::Engine;
use kindle_sender::config::{AzureConfig, Config, ConfigService};
use kindle_sender::delivery::{BatchAction, BatchEvent, BatchOutcome, BatchPhase, BatchRun, FileService, SendService};
use kindle_sender::auth::AzureService;
use kindle_sender::mail::KindleService;

fn drive(n: usize, send_ok: &[bool], move_ok: &[bool]) -> (Vec<BatchAction>, BatchRun) {
    let (mut run, first) = BatchRun::start(n);
    let mut actions = vec![first];
    let mut action = first;
    loop {
        let event = match action {
            BatchAction::Authenticate => BatchEvent::Authenticated,
            BatchAction::SendFile(i) => if send_ok[i] { BatchEvent::Sent } else { BatchEvent::SendFailed },
            BatchAction::RelocateFile(i) => if move_ok[i] { BatchEvent::Relocated } else { BatchEvent::RelocationFailed },
            BatchAction::Finish(_) | BatchAction::Abort => break,
        };
        action = run.step(event);
        actions.push(action);
    }
    (actions, run)
}

#[test]
fn all_files_delivered() {
    let (actions, run) = drive(3, &[true, true, true], &[true, true, true]);
    assert_eq!(*actions.last().unwrap(), BatchAction::Finish(BatchOutcome { success: 3, failure: 0 }));
    for i in 0..3 {
        assert!(actions.contains(&BatchAction::RelocateFile(i)));
    }
    assert_eq!(run.phase, BatchPhase::Finished);
    assert!(!run.outcome().is_failure());
}

#[test]
fn two_books_accepted() {
    let (actions, _) = drive(2, &[true, true], &[true, true]);
    assert_eq!(
        actions,
        vec![
            BatchAction::Authenticate,
            BatchAction::SendFile(0),
            BatchAction::RelocateFile(0),
            BatchAction::SendFile(1),
            BatchAction::RelocateFile(1),
            BatchAction::Finish(BatchOutcome { success: 2, failure: 0 }),
        ]
    );
}

#[test]
fn rejected_file_stays_and_batch_continues() {
    let (actions, run) = drive(3, &[true, false, true], &[true, true, true]);
    assert!(actions.contains(&BatchAction::SendFile(2)));
    assert!(!actions.contains(&BatchAction::RelocateFile(1)));
    assert_eq!(run.outcome(), BatchOutcome { success: 2, failure: 1 });
}

#[test]
fn second_book_rejected_with_413() {
    let (actions, run) = drive(2, &[true, false], &[true, true]);
    assert!(actions.contains(&BatchAction::RelocateFile(0)));
    assert!(!actions.contains(&BatchAction::RelocateFile(1)));
    let outcome = run.outcome();
    assert_eq!(outcome, BatchOutcome { success: 1, failure: 1 });
    let k = KindleService::new(&[]);
    let err = k.check_response(413, "too large").unwrap_err();
    assert_eq!(err.message, "Failed to send email: 413 too large");
    let cfg = sample_config();
    let azure = AzureService::new("c", "s", "t", "u");
    let service = SendService::new(azure, KindleService::new(&cfg.receivers), &cfg);
    assert_eq!(service.report(outcome).unwrap_err().message, "Failed to process 1 files");
}

#[test]
fn relocation_failure_counts_as_failure() {
    let (actions, run) = drive(2, &[true, true], &[false, true]);
    assert!(actions.contains(&BatchAction::RelocateFile(0)));
    assert_eq!(run.outcome(), BatchOutcome { success: 1, failure: 1 });
}

#[test]
fn empty_batch_needs_no_authentication() {
    let (run, action) = BatchRun::start(0);
    assert_eq!(action, BatchAction::Finish(BatchOutcome { success: 0, failure: 0 }));
    assert_eq!(run.phase, BatchPhase::Finished);
}

#[test]
fn failed_authentication_aborts() {
    let (mut run, _) = BatchRun::start(2);
    assert_eq!(run.step(BatchEvent::AuthFailed), BatchAction::Abort);
    assert_eq!(run.phase, BatchPhase::Aborted);
}

#[test]
fn relocation_keeps_the_file_name() {
    let f = FileService::new();
    assert_eq!(f.relocation_target("inbox/book1.epub", "sent").unwrap(), "sent/book1.epub");
    assert_eq!(f.relocation_target("inbox/book1.epub", "sent/").unwrap(), "sent/book1.epub");
    assert_eq!(f.relocation_target("book.epub", "").unwrap(), "book.epub");
    assert_eq!(f.relocation_target("inbox/", "sent").unwrap(), "sent/inbox");
}

#[test]
fn report_counts_failures() {
    let cfg = sample_config();
    let azure = AzureService::new("c", "s", "t", "u");
    let service = SendService::new(azure, KindleService::new(&cfg.receivers), &cfg);
    assert!(service.report(BatchOutcome { success: 4, failure: 0 }).is_ok());
    assert_eq!(
        service.report(BatchOutcome { success: 0, failure: 12 }).unwrap_err().message,
        "Failed to process 12 files"
    );
}

fn sample_config() -> Config {
    Config {
        callback_uri: "http://localhost:8080/callback".to_string(),
        ebook_to_send_directory: "inbox".to_string(),
        ebook_sent_directory: "sent".to_string(),
        receivers: vec!["reader@kindle.com".to_string(), "other@kindle.com".to_string()],
        azure: AzureConfig {
            client_id: "c".to_string(),
            client_secret: "s".to_string(),
            tenant_id: "common".to_string(),
        },
    }
}

#[test]
fn configuration_errors_name_the_file() {
    let err = ConfigService::read_config(Err("missing".to_string())).err().unwrap();
    assert_eq!(err.message, "Error reading configuration file (./config.json): missing");
    let ok = ConfigService::read_config(Ok(sample_config())).ok().unwrap();
    assert_eq!(ok.receivers.len(), 2);
}

#[test]
fn email_carries_the_book() {
    let cfg = sample_config();
    let k = KindleService::new(&cfg.receivers);
    let bytes: Vec<u8> = vec![1, 2, 3, 250, 0];
    let email = k.build_email("inbox/book1.epub", &bytes).ok().unwrap();
    assert!(email.save_to_sent_items);
    assert_eq!(email.message.subject, "Your Kindle File");
    assert_eq!(email.message.body.content_type, "Text");
    assert_eq!(email.message.body.content, "");
    assert_eq!(email.message.to_recipients.len(), 2);
    assert_eq!(email.message.to_recipients[1].email_address.address, "other@kindle.com");
    let a = &email.message.attachments[0];
    assert_eq!(email.message.attachments.len(), 1);
    assert_eq!(a.name, "book1.epub");
    assert_eq!(a.odata_type, "#microsoft.graph.fileAttachment");
    assert_eq!(a.content_type, "application/octet-stream");
    assert_eq!(a.content_bytes, "AQID+gA=");
}

#[test]
fn attachment_round_trips_through_base64() {
    let k = KindleService::new(&[]);
    let bytes: Vec<u8> = (0..=255u8).chain(0..10u8).collect();
    let email = k.build_email("a/b/book2.epub", &bytes).ok().unwrap();
    let decoded = base64::engine::general_purpose::STANDARD
        .decode(&email.message.attachments[0].content_bytes)
        .unwrap();
    assert_eq!(decoded, bytes);
    let empty = k.build_email("empty.epub", &[]).ok().unwrap();
    assert_eq!(empty.message.attachments[0].content_bytes, "");
}

#[test]
fn path_without_file_name_is_refused() {
    let k = KindleService::new(&[]);
    let err = k.build_email("inbox/", &[1]).err().unwrap();
    assert_eq!(err.message, "Failed to get filename from file path");
}

#[test]
fn any_2xx_status_is_delivery() {
    let k = KindleService::new(&[]);
    assert!(k.check_response(202, "").is_ok());
    assert!(k.check_response(200, "").is_ok());
    assert!(k.check_response(299, "").is_ok());
    assert_eq!(k.check_response(300, "x").unwrap_err().message, "Failed to send email: 300 x");
    assert_eq!(k.check_response(5, "").unwrap_err().message, "Failed to send email: 5 ");
}

#[test]
fn relocation_reads_names_as_paths() {
    let f = FileService::new();
    assert_eq!(f.relocation_target("a/..", "d").unwrap_err().message, "Invalid source path: no filename");
    assert_eq!(f.relocation_target("/", "d").unwrap_err().message, "Invalid source path: no filename");
    assert_eq!(f.relocation_target("", "d").unwrap_err().message, "Invalid source path: no filename");
    assert_eq!(f.relocation_target(".", "d").unwrap_err().message, "Invalid source path: no filename");
    assert_eq!(f.relocation_target("a/b/", "dst").unwrap(), "dst/b");
    assert_eq!(f.relocation_target("a/.", "dst").unwrap(), "dst/a");
    assert_eq!(f.relocation_target("a/b/./", "dst").unwrap(), "dst/b");
    assert_eq!(f.relocation_target("a/.hidden", "dst").unwrap(), "dst/.hidden");
}

#[test]
fn gateway_endpoint_and_status() {
    assert_eq!(kindle_sender::mail::send_mail_url(), "https://graph.microsoft.com/v1.0/me/sendMail");
    assert!(kindle_sender::mail::delivery_accepted(202));
    assert!(!kindle_sender::mail::delivery_accepted(413));
}
