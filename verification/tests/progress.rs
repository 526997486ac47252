use aporture_client::peer::{
    msg_for as dialog_input, Msg as DialogInput, Peer as TransferDialog, PulserChange,
    State as TransferState, StatusText,
};
use aporture_client::progress::{BarAction, ChannelMessage, TerminalProgress};

#[test]
fn terminal_bar_follows_the_messages() {
    let mut p = TerminalProgress::new();
    assert_eq!(p.step(ChannelMessage::Progress(5)), BarAction::Nothing);
    assert_eq!(p.step(ChannelMessage::Compression), BarAction::AnnounceCompression);
    assert_eq!(p.step(ChannelMessage::ProgressSize(100)), BarAction::Start(100));
    assert_eq!(p.step(ChannelMessage::Progress(40)), BarAction::Advance(40));
    assert_eq!(p.step(ChannelMessage::Uncompressing), BarAction::AnnounceUncompressing);
    assert_eq!(p.step(ChannelMessage::Finished), BarAction::Finish);
    assert_eq!(p.step(ChannelMessage::Finished), BarAction::Nothing);
    assert_eq!(p.step(ChannelMessage::Progress(1)), BarAction::Nothing);
}

#[test]
fn messages_become_dialog_inputs() {
    assert_eq!(
        dialog_input(ChannelMessage::Compression),
        DialogInput::UpdateState(TransferState::Compress)
    );
    assert_eq!(
        dialog_input(ChannelMessage::ProgressSize(7)),
        DialogInput::UpdateState(TransferState::Sending(7))
    );
    assert_eq!(
        dialog_input(ChannelMessage::Uncompressing),
        DialogInput::UpdateState(TransferState::Uncompress)
    );
    assert_eq!(
        dialog_input(ChannelMessage::Finished),
        DialogInput::UpdateState(TransferState::Final)
    );
    assert_eq!(dialog_input(ChannelMessage::Progress(3)), DialogInput::Progress(3));
}

#[test]
fn dialog_counts_bytes_after_the_size() {
    let mut d = TransferDialog::new();
    let e = d.step(DialogInput::UpdateState(TransferState::Initial));
    assert!(e.reset_fraction);
    assert_eq!(e.pulser, PulserChange::Start);
    assert_eq!(d.status, StatusText::Waiting);
    assert!(d.pulsing);
    d.step(DialogInput::UpdateState(TransferState::Paired));
    assert_eq!(d.status.text(), "Pairing complete!");
    let e = d.step(DialogInput::UpdateState(TransferState::Sending(1000)));
    assert_eq!(e.pulser, PulserChange::Stop);
    assert!(e.request_zero_progress);
    assert_eq!(d.status.text(), "0%");
    assert!(!d.pulsing);
    d.step(DialogInput::Progress(0));
    d.step(DialogInput::Progress(250));
    let e = d.step(DialogInput::Progress(250));
    assert!(e.show_fraction);
    assert_eq!(d.current, 500);
    assert_eq!(d.total, 1000);
    assert_eq!(d.status, StatusText::Percent);
    d.step(DialogInput::UpdateState(TransferState::Final));
    assert_eq!(d.status.text(), "Finished Transfer");
}

#[test]
fn dialog_texts() {
    assert_eq!(StatusText::Waiting.text(), "Waiting for peer...");
    assert_eq!(StatusText::Compressing.text(), "Compressing files before transfer...");
    assert_eq!(StatusText::Uncompressing.text(), "Uncompressing files...");
    assert_eq!(StatusText::Empty.text(), "");
}

#[test]
fn cancel_stops_and_reports() {
    let mut d = TransferDialog::new();
    d.step(DialogInput::UpdateState(TransferState::Uncompress));
    assert!(d.pulsing);
    let e = d.step(DialogInput::Cancel);
    assert!(e.cancel);
    assert_eq!(e.pulser, PulserChange::Stop);
    assert!(!d.pulsing);
    let e = d.step(DialogInput::Pulse);
    assert!(e.pulse);
    assert_eq!(d.finish(), PulserChange::Stop);
}

#[test]
fn terminal_bar_takes_messages_in_any_order() {
    let mut bar = TerminalProgress::new();
    let messages = [
        ChannelMessage::Progress(5),
        ChannelMessage::Finished,
        ChannelMessage::ProgressSize(10),
        ChannelMessage::Progress(4),
        ChannelMessage::Finished,
        ChannelMessage::Finished,
        ChannelMessage::Progress(1),
    ];
    let actions: Vec<BarAction> = messages.iter().map(|m| bar.step(*m)).collect();
    assert_eq!(
        actions,
        vec![
            BarAction::Nothing,
            BarAction::Nothing,
            BarAction::Start(10),
            BarAction::Advance(4),
            BarAction::Finish,
            BarAction::Nothing,
            BarAction::Nothing,
        ]
    );
}
