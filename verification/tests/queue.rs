use gfx_core::command::{Command, CommandBuffer, State, SubmitInfo};
use gfx_core::error::Error;
use gfx_core::queue::{Queue, Submission};

fn ended(raw: u64, family: u32, value: u8) -> (CommandBuffer, SubmitInfo) {
    let mut buffer = CommandBuffer::new(raw, family);
    assert_eq!(buffer.update_buffer(1, vec![value], 0), Ok(()));
    assert_eq!(buffer.copy_buffer(1, 2, 0, 0, 1), Ok(()));
    let info = buffer.end(0).ok().expect("the buffer was recording");
    (buffer, info)
}

#[test]
fn a_new_queue_has_taken_nothing() {
    let queue = Queue::new(3);
    assert_eq!(queue.family(), 3);
    assert!(queue.submissions().is_empty());
}

#[test]
fn a_submission_is_queued_with_its_primitives() {
    let (mut buffer, info) = ended(0x10, 1, 42);
    let mut queue = Queue::new(1);
    assert!(queue.accepts(&buffer, &info));
    assert_eq!(queue.submit(&mut buffer, info, vec![5, 6], vec![7], Some(8), 0), Ok(()));
    assert_eq!(
        queue.submissions(),
        &vec![Submission { command_buffer: 0x10, waits: vec![5, 6], signals: vec![7], fence: Some(8) }]
    );
    assert_eq!(buffer.state(), State::Submitted);
}

#[test]
fn a_token_of_another_family_is_rejected() {
    let (mut buffer, info) = ended(0x10, 1, 42);
    let stream = buffer.commands().clone();
    let mut queue = Queue::new(2);
    assert!(!queue.accepts(&buffer, &info));
    assert_eq!(
        queue.submit(&mut buffer, info, vec![], vec![], None, 0),
        Err(Error::SubmissionRejected)
    );
    assert!(queue.submissions().is_empty());
    assert_eq!(buffer.state(), State::Ended);
    assert_eq!(buffer.commands(), &stream);
    let mut right = Queue::new(1);
    assert_eq!(right.submit(&mut buffer, info, vec![], vec![], None, 0), Ok(()));
}

#[test]
fn a_native_refusal_is_a_rejection() {
    let (mut buffer, info) = ended(0x10, 1, 42);
    let mut queue = Queue::new(1);
    for code in [-4, -1, -2, 1, 2] {
        assert_eq!(
            queue.submit(&mut buffer, info, vec![], vec![], None, code),
            Err(Error::SubmissionRejected)
        );
        assert!(queue.submissions().is_empty());
        assert_eq!(buffer.state(), State::Ended);
    }
}

#[test]
fn a_buffer_that_is_not_ended_is_rejected() {
    let mut buffer = CommandBuffer::new(0x10, 1);
    let mut queue = Queue::new(1);
    let forged = SubmitInfo { command_buffer: 0x10, family: 1 };
    assert!(!queue.accepts(&buffer, &forged));
    assert_eq!(
        queue.submit(&mut buffer, forged, vec![], vec![], None, 0),
        Err(Error::SubmissionRejected)
    );
    assert_eq!(buffer.state(), State::Recording);
    assert_eq!(buffer.call_draw(0, 3, None), Ok(()));
}

#[test]
fn a_token_is_consumed_once() {
    let (mut buffer, info) = ended(0x10, 1, 42);
    let mut queue = Queue::new(1);
    assert_eq!(queue.submit(&mut buffer, info, vec![], vec![], None, 0), Ok(()));
    assert_eq!(
        queue.submit(&mut buffer, info, vec![], vec![], None, 0),
        Err(Error::SubmissionRejected)
    );
    assert_eq!(queue.submissions().len(), 1);
    assert_eq!(buffer.state(), State::Submitted);
}

#[test]
fn a_token_of_another_buffer_is_rejected() {
    let (mut a, _) = ended(0x10, 1, 1);
    let (_, info_b) = ended(0x20, 1, 2);
    let mut queue = Queue::new(1);
    assert_eq!(
        queue.submit(&mut a, info_b, vec![], vec![], None, 0),
        Err(Error::SubmissionRejected)
    );
    let wrong_family = SubmitInfo { command_buffer: 0x10, family: 1 };
    let (mut c, _) = ended(0x10, 2, 3);
    assert_eq!(
        queue.submit(&mut c, wrong_family, vec![], vec![], None, 0),
        Err(Error::SubmissionRejected)
    );
    assert!(queue.submissions().is_empty());
}

#[test]
fn submissions_keep_their_order() {
    let (mut a, info_a) = ended(0xa, 0, 42);
    let mut b = CommandBuffer::new(0xb, 0);
    assert_eq!(b.copy_buffer(2, 3, 0, 0, 1), Ok(()));
    let info_b = b.end(0).ok().expect("the buffer was recording");
    let mut queue = Queue::new(0);
    assert_eq!(queue.submit(&mut a, info_a, vec![], vec![], None, 0), Ok(()));
    assert_eq!(queue.submit(&mut b, info_b, vec![], vec![], Some(1), 0), Ok(()));
    let order: Vec<u64> = queue.submissions().iter().map(|s| s.command_buffer).collect();
    assert_eq!(order, vec![0xa, 0xb]);
    assert_eq!(
        a.commands()[0],
        Command::UpdateBuffer { buffer: 1, data: vec![42], offset: 0 }
    );
    let (mut c, info_c) = ended(0xc, 0, 7);
    assert_eq!(queue.submit(&mut c, info_c, vec![], vec![], None, 0), Ok(()));
    let order: Vec<u64> = queue.submissions().iter().map(|s| s.command_buffer).collect();
    assert_eq!(order, vec![0xa, 0xb, 0xc]);
}
