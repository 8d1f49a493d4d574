//! How a transfer is shown in the list of transfers: the look of its row
//! for each stage, the texts it carries, and which finished rows may be
//! retried from the history.
use vstd::prelude::*;

use crate::endpoint::DeviceType;
use crate::manager::State;
use crate::numbers::{decimal_text, u128_text};
use crate::devices::RetryRequest;
use crate::ids::IdSet;
use crate::paths::{open_target, open_target_of};
use crate::text::{
    chars_of, copy_opt_string, equals_text, opt_text, push_all, string_of,
};
use crate::manager::{ChannelAction, ChannelDirection};

verus! {

/// The colour a transfer row is drawn in.
#[derive(Debug, Clone, Copy, PartialEq, Eq, Structural)]
pub enum RowTone {
    Plain,
    Active,
    Success,
    Error,
}

/// What a transfer row says under its title.
#[derive(Debug, Clone, Copy, PartialEq, Eq, Structural)]
pub enum RowSubtitle {
    /// Nothing.
    Blank,
    /// What the other device offers to share.
    Offer,
    /// That a cancel was asked for and is under way.
    Cancelling,
    /// How far receiving has come.
    Receiving,
    /// How far sending has come.
    Sending,
    /// Where the files were saved, or that they arrived.
    Saved,
    Rejected,
    Cancelled,
    ConnectionLost,
}

/// The buttons a transfer row offers.
#[derive(Debug, Clone, Copy, PartialEq, Eq, Structural)]
pub struct RowButtons {
    pub accept: bool,
    pub decline: bool,
    pub cancel: bool,
    /// Whether the cancel button can be pressed.
    pub cancel_enabled: bool,
    pub open: bool,
    pub show_folder: bool,
    pub copy: bool,
    pub retry: bool,
    pub clear: bool,
}

/// Everything about a transfer row that depends on the transfer's stage.
#[derive(Debug, Clone, Copy, PartialEq, Eq, Structural)]
pub struct TransferRowLook {
    pub tone: RowTone,
    pub subtitle: RowSubtitle,
    pub buttons: RowButtons,
    pub progress_visible: bool,
    pub pin_visible: bool,
    /// The buttons are stacked closer, to make room for the PIN.
    pub tight_buttons: bool,
}

/// What is known of a transfer besides its stage.
#[derive(Debug, Clone, Copy, PartialEq, Eq, Structural)]
pub struct TransferFacts {
    /// A PIN to compare with the other device.
    pub has_pin: bool,
    /// The transfer carries files.
    pub has_files: bool,
    /// The transfer carries a text.
    pub has_text: bool,
    /// A received file or folder can be opened.
    pub has_open_target: bool,
}

/// Files or a text are being moved.
pub open spec fn moving(s: State) -> bool {
    s == State::ReceivingFiles || s == State::SendingFiles
}

/// The transfer went wrong: refused, cancelled or cut off.
pub open spec fn failed(s: State) -> bool {
    s == State::Rejected || s == State::Cancelled || s == State::Disconnected
}

/// The transfer is over, one way or another.
pub open spec fn ended(s: State) -> bool {
    s == State::Finished || failed(s)
}

/// The look of a row for a transfer at stage `s`, with a cancel asked for
/// and not yet answered when `pending_cancel` holds.
pub open spec fn row_look_of(s: State, pending_cancel: bool, f: TransferFacts) -> TransferRowLook {
    let cancelling = moving(s) && pending_cancel;
    TransferRowLook {
        tone: if cancelling || failed(s) {
            RowTone::Error
        } else if moving(s) {
            RowTone::Active
        } else if s == State::Finished {
            RowTone::Success
        } else {
            RowTone::Plain
        },
        subtitle: match s {
            State::WaitingForUserConsent => RowSubtitle::Offer,
            State::ReceivingFiles => if pending_cancel {
                RowSubtitle::Cancelling
            } else {
                RowSubtitle::Receiving
            },
            State::SendingFiles => if pending_cancel {
                RowSubtitle::Cancelling
            } else {
                RowSubtitle::Sending
            },
            State::Finished => RowSubtitle::Saved,
            State::Rejected => RowSubtitle::Rejected,
            State::Cancelled => RowSubtitle::Cancelled,
            State::Disconnected => RowSubtitle::ConnectionLost,
            State::Initial => RowSubtitle::Blank,
        },
        buttons: RowButtons {
            accept: s == State::WaitingForUserConsent,
            decline: s == State::WaitingForUserConsent,
            cancel: moving(s),
            cancel_enabled: !cancelling,
            open: s == State::Finished && f.has_open_target,
            show_folder: s == State::Finished && f.has_open_target,
            copy: s == State::Finished && f.has_text,
            retry: failed(s) && f.has_files,
            clear: ended(s),
        },
        progress_visible: moving(s) && !pending_cancel,
        pin_visible: s == State::WaitingForUserConsent && f.has_pin,
        tight_buttons: s == State::WaitingForUserConsent,
    }
}

/// The look of a row just made, before its transfer has a stage: no
/// button, no progress bar and no PIN shown.
pub open spec fn initial_look_of() -> TransferRowLook {
    TransferRowLook {
        tone: RowTone::Plain,
        subtitle: RowSubtitle::Blank,
        buttons: RowButtons {
            accept: false,
            decline: false,
            cancel: false,
            cancel_enabled: true,
            open: false,
            show_folder: false,
            copy: false,
            retry: false,
            clear: false,
        },
        progress_visible: false,
        pin_visible: false,
        tight_buttons: false,
    }
}

/// A button of a transfer row that sends a command.
#[derive(Debug, Clone, Copy, PartialEq, Eq, Structural)]
pub enum RowButton {
    Accept,
    Decline,
    Cancel,
}

/// A command of the front end about a transfer, by its id.
#[derive(Debug, Clone, PartialEq, Eq)]
pub enum TransferCommand {
    Accept(String),
    Reject(String),
    Cancel(String),
}

/// What is known of a transfer when its row is updated.
#[derive(Debug, Clone, PartialEq, Eq)]
pub struct TransferMeta {
    /// The PIN to compare with the other device.
    pub pin_code: Option<String>,
    /// The names of the files the transfer carries.
    pub files: Option<Vec<String>>,
    /// The transfer carries a text.
    pub has_text: bool,
    /// The name of the sending device.
    pub source_name: Option<String>,
    /// Where the files were saved.
    pub destination: Option<String>,
    /// The destination is a folder.
    pub destination_is_dir: bool,
    /// The size of the transfer in bytes; 0 while unknown.
    pub total_bytes: u64,
    /// The byte counts done and in all, as shown (`done / total`).
    pub progress_sizes: String,
}

/// The facts about a transfer that its row's look depends on.
pub open spec fn facts_of(m: TransferMeta) -> TransferFacts {
    TransferFacts {
        has_pin: m.pin_code is Some,
        has_files: m.files is Some,
        has_text: m.has_text,
        has_open_target: m.destination is Some,
    }
}

/// The names of the files, as texts.
pub open spec fn file_texts(files: Option<Vec<String>>) -> Option<Seq<Seq<char>>> {
    match files {
        Some(fs) => Some(fs@.map_values(|f: String| f@)),
        None => None,
    }
}

/// The progress of a transfer after `prefix`: only dots while its size is
/// unknown, else the byte counts.
pub open spec fn progress_text_of(prefix: Seq<char>, total_bytes: u64, sizes: Seq<char>) -> Seq<char> {
    if total_bytes == 0 {
        prefix + "..."@
    } else {
        prefix + " · "@ + sizes
    }
}

/// The text of the subtitle `t` of a row for the transfer `m`.
pub open spec fn subtitle_text_of(t: RowSubtitle, m: TransferMeta) -> Seq<char> {
    match t {
        RowSubtitle::Offer => offer_text_of(
            match m.files {
                Some(fs) => Some(fs@.len()),
                None => None,
            },
            m.has_text,
        ),
        RowSubtitle::Receiving => progress_text_of("Receiving"@, m.total_bytes, m.progress_sizes@),
        RowSubtitle::Sending => progress_text_of("Sending"@, m.total_bytes, m.progress_sizes@),
        RowSubtitle::Saved => saved_text_of(opt_text(m.destination)),
        _ => match fixed_subtitle_text(t) {
            Some(x) => x,
            None => Seq::<char>::empty(),
        },
    }
}

/// What a transfer row holds, as values.
pub struct TransferRowView {
    pub id: Seq<char>,
    pub pending_cancel: bool,
    pub title: Seq<char>,
    pub subtitle: Seq<char>,
    pub open_target: Option<Seq<char>>,
}

/// The row `r` after it shows the transfer `m` at stage `s`: a transfer
/// that ended has no cancel pending; the title is the sender's name where
/// one is known (else it stays); the subtitle is the text of the stage;
/// and only a finished transfer has something to open.
pub open spec fn row_after(r: TransferRowView, s: State, m: TransferMeta) -> TransferRowView {
    let pending = r.pending_cancel && !ended(s);
    TransferRowView {
        id: r.id,
        pending_cancel: pending,
        title: match m.source_name {
            Some(n) => n@,
            None => r.title,
        },
        subtitle: subtitle_text_of(row_look_of(s, pending, facts_of(m)).subtitle, m),
        open_target: if s == State::Finished {
            open_target_of(opt_text(m.destination), m.destination_is_dir, file_texts(m.files))
        } else {
            None
        },
    }
}

fn progress_text(prefix: &str, total_bytes: u64, sizes: &str) -> (r: String)
    ensures
        r@ == progress_text_of(prefix@, total_bytes, sizes@),
{
    let mut out = chars_of(prefix);
    if total_bytes == 0 {
        push_all(&mut out, &chars_of("..."));
    } else {
        push_all(&mut out, &chars_of(" · "));
        push_all(&mut out, &chars_of(sizes));
    }
    string_of(&out)
}

/// The text of the subtitle `t` of a row for the transfer `m`.
pub fn subtitle_text(t: RowSubtitle, m: &TransferMeta) -> (r: String)
    ensures
        r@ == subtitle_text_of(t, *m),
{
    match t {
        RowSubtitle::Offer => transfer_description(
            match &m.files {
                Some(fs) => Some(fs.len()),
                None => None,
            },
            m.has_text,
        ),
        RowSubtitle::Receiving => progress_text("Receiving", m.total_bytes, m.progress_sizes.as_str()),
        RowSubtitle::Sending => progress_text("Sending", m.total_bytes, m.progress_sizes.as_str()),
        RowSubtitle::Saved => saved_text(
            match &m.destination {
                Some(d) => Some(d.as_str()),
                None => None,
            },
        ),
        _ => match t.fixed_text() {
            Some(x) => x.to_owned(),
            None => String::new(),
        },
    }
}

/// A transfer row: the transfer's id, whether the user asked to cancel it
/// and no answer has come yet, and what the row keeps for the history (its
/// title and subtitle) and for opening (the received file or folder).
#[derive(Debug)]
pub struct TransferRow {
    pub id: String,
    pub pending_cancel: bool,
    pub title: String,
    pub subtitle: String,
    pub open_target: Option<String>,
}

impl View for TransferRow {
    type V = TransferRowView;

    open spec fn view(&self) -> TransferRowView {
        TransferRowView {
            id: self.id@,
            pending_cancel: self.pending_cancel,
            title: self.title@,
            subtitle: self.subtitle@,
            open_target: opt_text(self.open_target),
        }
    }
}

impl TransferRow {
    /// The row of the transfer `id`: no cancel asked for, nothing kept yet.
    pub fn new(id: String) -> (r: Self)
        ensures
            r.id == id,
            !r.pending_cancel,
            r.title@ == Seq::<char>::empty(),
            r.subtitle@ == Seq::<char>::empty(),
            r.open_target is None,
    {
        TransferRow {
            id,
            pending_cancel: false,
            title: String::new(),
            subtitle: String::new(),
            open_target: None,
        }
    }

    /// How a row looks when it is made.
    pub fn initial_look() -> (r: TransferRowLook)
        ensures
            r == initial_look_of(),
    {
        TransferRowLook {
            tone: RowTone::Plain,
            subtitle: RowSubtitle::Blank,
            buttons: RowButtons {
                accept: false,
                decline: false,
                cancel: false,
                cancel_enabled: true,
                open: false,
                show_folder: false,
                copy: false,
                retry: false,
                clear: false,
            },
            progress_visible: false,
            pin_visible: false,
            tight_buttons: false,
        }
    }

    /// The command that the button `b` of this row sends.
    pub fn button_command(&self, b: RowButton) -> (r: TransferCommand)
        ensures
            b == RowButton::Accept ==> (r matches TransferCommand::Accept(id) && id@ == self.id@),
            b == RowButton::Decline ==> (r matches TransferCommand::Reject(id) && id@ == self.id@),
            b == RowButton::Cancel ==> (r matches TransferCommand::Cancel(id) && id@ == self.id@),
    {
        let id = self.id.clone();
        match b {
            RowButton::Accept => TransferCommand::Accept(id),
            RowButton::Decline => TransferCommand::Reject(id),
            RowButton::Cancel => TransferCommand::Cancel(id),
        }
    }

    /// What the row leaves in the history: its title and subtitle.
    pub fn history_snapshot(&self) -> (r: (String, String))
        ensures
            r.0@ == self.title@,
            r.1@ == self.subtitle@,
    {
        (self.title.clone(), self.subtitle.clone())
    }

    /// The file or folder that opening the row opens, if any.
    pub fn open_target_snapshot(&self) -> (r: Option<String>)
        ensures
            opt_text(r) == opt_text(self.open_target),
    {
        copy_opt_string(&self.open_target)
    }

    /// The user asked to cancel the transfer.
    pub fn request_cancel(&mut self)
        ensures
            final(self).pending_cancel,
    {
        self.pending_cancel = true;
    }

    /// The cancel request could not be passed on: the row forgets it.
    pub fn cancel_not_delivered(&mut self)
        ensures
            !final(self).pending_cancel,
    {
        self.pending_cancel = false;
    }

    /// Shows the transfer `m` at stage `s` and keeps what the history
    /// needs (see [`row_after`]); the result is how the row looks.
    pub fn update_state(&mut self, s: State, m: &TransferMeta) -> (look: TransferRowLook)
        ensures
            final(self)@ == row_after(old(self)@, s, *m),
            look == row_look_of(s, final(self).pending_cancel, facts_of(*m)),
    {
        let facts = TransferFacts {
            has_pin: m.pin_code.is_some(),
            has_files: m.files.is_some(),
            has_text: m.has_text,
            has_open_target: m.destination.is_some(),
        };
        let look = self.update_look(s, facts);
        if let Some(n) = &m.source_name {
            self.title = n.clone();
        }
        self.subtitle = subtitle_text(look.subtitle, m);
        self.open_target = match s {
            State::Finished => open_target(
                match &m.destination {
                    Some(d) => Some(d.as_str()),
                    None => None,
                },
                m.destination_is_dir,
                match &m.files {
                    Some(fs) => Some(fs),
                    None => None,
                },
            ),
            _ => None,
        };
        look
    }

    fn update_look(&mut self, s: State, facts: TransferFacts) -> (look: TransferRowLook)
        ensures
            final(self).pending_cancel == (old(self).pending_cancel && !ended(s)),
            look == row_look_of(s, final(self).pending_cancel, facts),
            final(self).id == old(self).id,
            final(self).title == old(self).title,
            final(self).subtitle == old(self).subtitle,
            final(self).open_target == old(self).open_target,
    {
        match s {
            State::Finished | State::Rejected | State::Cancelled | State::Disconnected => {
                self.pending_cancel = false;
            },
            _ => {},
        }
        let pending = self.pending_cancel;
        let cancelling = pending && match s {
            State::ReceivingFiles | State::SendingFiles => true,
            _ => false,
        };
        let mut look = TransferRowLook {
            tone: RowTone::Plain,
            subtitle: RowSubtitle::Blank,
            buttons: RowButtons {
                accept: false,
                decline: false,
                cancel: false,
                cancel_enabled: true,
                open: false,
                show_folder: false,
                copy: false,
                retry: false,
                clear: false,
            },
            progress_visible: false,
            pin_visible: false,
            tight_buttons: false,
        };
        match s {
            State::WaitingForUserConsent => {
                look.pin_visible = facts.has_pin;
                look.tight_buttons = true;
                look.subtitle = RowSubtitle::Offer;
                look.buttons.accept = true;
                look.buttons.decline = true;
            },
            State::ReceivingFiles | State::SendingFiles => {
                look.buttons.cancel = true;
                if cancelling {
                    look.tone = RowTone::Error;
                    look.subtitle = RowSubtitle::Cancelling;
                    look.buttons.cancel_enabled = false;
                } else {
                    look.tone = RowTone::Active;
                    look.subtitle = match s {
                        State::ReceivingFiles => RowSubtitle::Receiving,
                        _ => RowSubtitle::Sending,
                    };
                    look.progress_visible = true;
                }
            },
            State::Finished => {
                look.tone = RowTone::Success;
                look.subtitle = RowSubtitle::Saved;
                look.buttons.open = facts.has_open_target;
                look.buttons.show_folder = facts.has_open_target;
                look.buttons.copy = facts.has_text;
                look.buttons.clear = true;
            },
            State::Rejected | State::Cancelled | State::Disconnected => {
                look.tone = RowTone::Error;
                look.subtitle = match s {
                    State::Rejected => RowSubtitle::Rejected,
                    State::Cancelled => RowSubtitle::Cancelled,
                    _ => RowSubtitle::ConnectionLost,
                };
                look.buttons.clear = true;
                look.buttons.retry = facts.has_files;
            },
            State::Initial => {},
        }
        look
    }
}

/// The text of a subtitle that depends on nothing else; none for the
/// subtitles that tell the offer, the progress or where files were saved.
pub open spec fn fixed_subtitle_text(t: RowSubtitle) -> Option<Seq<char>> {
    match t {
        RowSubtitle::Blank => Some(""@),
        RowSubtitle::Cancelling => Some("Cancelling transfer..."@),
        RowSubtitle::Rejected => Some("Transfer rejected"@),
        RowSubtitle::Cancelled => Some("Transfer cancelled"@),
        RowSubtitle::ConnectionLost => Some("Connection lost during transfer"@),
        _ => None,
    }
}

impl RowSubtitle {
    /// The text of this subtitle, where it depends on nothing else.
    pub fn fixed_text(&self) -> (r: Option<&'static str>)
        ensures
            opt_static_text(r) == fixed_subtitle_text(*self),
    {
        match self {
            RowSubtitle::Blank => Some(""),
            RowSubtitle::Cancelling => Some("Cancelling transfer..."),
            RowSubtitle::Rejected => Some("Transfer rejected"),
            RowSubtitle::Cancelled => Some("Transfer cancelled"),
            RowSubtitle::ConnectionLost => Some("Connection lost during transfer"),
            _ => None,
        }
    }
}

/// The text an optional static text holds.
pub open spec fn opt_static_text(o: Option<&'static str>) -> Option<Seq<char>> {
    match o {
        Some(s) => Some(s@),
        None => None,
    }
}

/// The subtitle of a finished transfer: where it was saved, or only that
/// it arrived.
pub open spec fn saved_text_of(destination: Option<Seq<char>>) -> Seq<char> {
    match destination {
        Some(d) => "Saved to "@ + d,
        None => "Received"@,
    }
}

/// The subtitle of a finished transfer saved to `destination`.
pub fn saved_text(destination: Option<&str>) -> (r: String)
    ensures
        r@ == saved_text_of(match destination {
            Some(d) => Some(d@),
            None => None,
        }),
{
    match destination {
        Some(d) => {
            let mut out = chars_of("Saved to ");
            push_all(&mut out, &chars_of(d));
            string_of(&out)
        },
        None => string_of(&chars_of("Received")),
    }
}

/// What the other device offers: a number of files, a text, or nothing
/// known yet.
pub open spec fn offer_text_of(file_count: Option<nat>, has_text: bool) -> Seq<char> {
    match file_count {
        Some(n) => "Wants to share "@ + decimal_text(n) + " "@ + if n == 1 {
            "file"@
        } else {
            "files"@
        },
        None => if has_text {
            "Wants to share text"@
        } else {
            "Wants to share"@
        },
    }
}

/// The subtitle of a transfer that waits for the user's consent.
pub fn transfer_description(file_count: Option<usize>, has_text: bool) -> (r: String)
    ensures
        r@ == offer_text_of(
            match file_count {
                Some(n) => Some(n as nat),
                None => None,
            },
            has_text,
        ),
{
    match file_count {
        Some(n) => {
            let mut out = chars_of("Wants to share ");
            push_all(&mut out, &u128_text(n as u128));
            push_all(&mut out, &chars_of(" "));
            if n == 1 {
                push_all(&mut out, &chars_of("file"));
            } else {
                push_all(&mut out, &chars_of("files"));
            }
            string_of(&out)
        },
        None => if has_text {
            string_of(&chars_of("Wants to share text"))
        } else {
            string_of(&chars_of("Wants to share"))
        },
    }
}

/// A subtitle left in the history by a transfer that went wrong, and so
/// may be tried again.
pub open spec fn retryable_text(subtitle: Seq<char>) -> bool {
    subtitle == "Transfer rejected"@ || subtitle == "Transfer cancelled"@ || subtitle
        == "Connection lost during transfer"@
}

/// Whether a transfer whose history entry says `subtitle` may be retried.
pub fn history_allows_retry(subtitle: &str) -> (r: bool)
    ensures
        r == retryable_text(subtitle@),
{
    let s = chars_of(subtitle);
    equals_text(&s, "Transfer rejected") || equals_text(&s, "Transfer cancelled") || equals_text(
        &s,
        "Connection lost during transfer",
    )
}

/// The title of a history entry: the one it was saved with, or a plain
/// name for a transfer without one.
pub fn history_title(title: &str) -> (r: String)
    ensures
        r@ == if title@.len() == 0 {
            "Recent transfer"@
        } else {
            title@
        },
{
    if title.is_empty() {
        "Recent transfer".to_owned()
    } else {
        title.to_owned()
    }
}

/// The label of the PIN `pin` that both devices show.
pub fn pin_text(pin: &str) -> (r: String)
    ensures
        r@ == "PIN "@ + pin@,
{
    let mut out = chars_of("PIN ");
    push_all(&mut out, &chars_of(pin));
    string_of(&out)
}

/// What the front end asks of the library for a command: the message for
/// the transfer, and whether the transfer is also cancelled at once.
#[derive(Debug, Clone, PartialEq, Eq)]
pub struct ChannelRequest {
    pub id: String,
    pub direction: ChannelDirection,
    pub action: ChannelAction,
    pub cancels_transfer: bool,
}

/// The request for `command`: accepting, rejecting or cancelling the
/// transfer of its id, sent from the front end to the library; a cancel
/// also cancels the transfer itself.
pub fn channel_request(command: &TransferCommand) -> (r: ChannelRequest)
    ensures
        r.direction == ChannelDirection::FrontToLib,
        match command {
            TransferCommand::Accept(id) => r.id@ == id@ && r.action == ChannelAction::AcceptTransfer
                && !r.cancels_transfer,
            TransferCommand::Reject(id) => r.id@ == id@ && r.action == ChannelAction::RejectTransfer
                && !r.cancels_transfer,
            TransferCommand::Cancel(id) => r.id@ == id@ && r.action == ChannelAction::CancelTransfer
                && r.cancels_transfer,
        },
{
    match command {
        TransferCommand::Accept(id) => ChannelRequest {
            id: id.clone(),
            direction: ChannelDirection::FrontToLib,
            action: ChannelAction::AcceptTransfer,
            cancels_transfer: false,
        },
        TransferCommand::Reject(id) => ChannelRequest {
            id: id.clone(),
            direction: ChannelDirection::FrontToLib,
            action: ChannelAction::RejectTransfer,
            cancels_transfer: false,
        },
        TransferCommand::Cancel(id) => ChannelRequest {
            id: id.clone(),
            direction: ChannelDirection::FrontToLib,
            action: ChannelAction::CancelTransfer,
            cancels_transfer: true,
        },
    }
}

/// The most entries a history list shows.
pub const HISTORY_ROWS: usize = 6;

/// An entry of a history list: what a transfer row left, with what it can
/// still do (be tried again, show its folder).
#[derive(Debug)]
pub struct HistoryRow {
    pub title: String,
    pub subtitle: String,
    pub retry: Option<RetryRequest>,
    pub open_target: Option<String>,
}

/// The entries of a history list, the most recent first.
#[derive(Debug)]
pub struct HistoryList {
    pub rows: Vec<HistoryRow>,
}

impl HistoryList {
    /// No entry.
    pub fn new() -> (r: Self)
        ensures
            r.rows@.len() == 0,
    {
        HistoryList { rows: Vec::new() }
    }

    /// Adds an entry at the top, titled `title` (or as a recent transfer
    /// where that is empty); only the most recent entries stay, up to
    /// [`HISTORY_ROWS`].
    pub fn prepend(
        &mut self,
        title: &str,
        subtitle: String,
        retry: Option<RetryRequest>,
        open_target: Option<String>,
    )
        ensures
            final(self).rows@.len() == if old(self).rows@.len() + 1 <= HISTORY_ROWS as int {
                old(self).rows@.len() + 1int
            } else {
                HISTORY_ROWS as int
            },
            final(self).rows@[0].title@ == (if title@.len() == 0 {
                "Recent transfer"@
            } else {
                title@
            }),
            final(self).rows@[0].subtitle == subtitle,
            final(self).rows@[0].retry == retry,
            final(self).rows@[0].open_target == open_target,
            forall|i: int|
                1 <= i < final(self).rows@.len() ==> #[trigger] final(self).rows@[i] == old(
                    self,
                ).rows@[i - 1],
    {
        let row = HistoryRow { title: history_title(title), subtitle, retry, open_target };
        self.rows.insert(0, row);
        self.rows.truncate(HISTORY_ROWS);
    }
}

/// The icon of a device of kind `t`.
pub fn device_icon_name(t: &DeviceType) -> (r: &'static str)
    ensures
        r@ == match t {
            DeviceType::Phone => "phone-symbolic"@,
            DeviceType::Tablet => "tablet-symbolic"@,
            _ => "computer-symbolic"@,
        },
{
    match t {
        DeviceType::Phone => "phone-symbolic",
        DeviceType::Tablet => "tablet-symbolic",
        _ => "computer-symbolic",
    }
}

// ---------------------------------------------------------------------------
// The list of transfers
// ---------------------------------------------------------------------------

/// What a transfer message did to the list of transfers.
#[derive(Debug, Clone, Copy, PartialEq, Eq, Structural)]
pub enum TransferListChange {
    /// The message tells no stage or no details: nothing is shown.
    Ignored,
    /// A row was added for a new transfer.
    Added,
    /// The row of a transfer already shown was updated.
    Updated,
}

/// Which parts of the transfer section are shown.
#[derive(Debug, Clone, Copy, PartialEq, Eq, Structural)]
pub struct TransferSectionLook {
    pub list_visible: bool,
    pub heading_visible: bool,
    /// The header, with the history button.
    pub header_visible: bool,
    /// The page telling that there is no transfer.
    pub empty_page_visible: bool,
}

/// The transfers shown and whether the history button is.
pub struct TransferListView {
    pub shown: Set<Seq<char>>,
    pub history_shown: bool,
}

/// The section for the transfers `v`: the list and its heading while a
/// transfer is shown, the header also while there is history.
pub open spec fn section_look_of(v: TransferListView) -> TransferSectionLook {
    let empty = v.shown == Set::<Seq<char>>::empty();
    TransferSectionLook {
        list_visible: !empty,
        heading_visible: !empty,
        header_visible: !empty || v.history_shown,
        empty_page_visible: empty,
    }
}

/// The transfers a view shows, by id, and whether its history button is
/// shown.
pub struct TransferList {
    shown: IdSet,
    history_shown: bool,
}

impl View for TransferList {
    type V = TransferListView;

    closed spec fn view(&self) -> TransferListView {
        TransferListView { shown: self.shown@, history_shown: self.history_shown }
    }
}

impl TransferList {
    /// The list is in order.
    pub closed spec fn well_formed(&self) -> bool {
        self.shown.well_formed()
    }

    /// No transfer shown; the history button shown when there is history.
    pub fn new(has_history: bool) -> (r: Self)
        ensures
            r.well_formed(),
            r@ == (TransferListView { shown: Set::<Seq<char>>::empty(), history_shown: has_history }),
    {
        TransferList { shown: IdSet::new(), history_shown: has_history }
    }

    /// Takes in a message about the transfer `id`: a message with a stage
    /// and details adds the transfer, or updates it where it is shown.
    pub fn take_message(&mut self, id: &str, has_state: bool, has_meta: bool) -> (change:
        TransferListChange)
        requires
            old(self).well_formed(),
        ensures
            final(self).well_formed(),
            !(has_state && has_meta) ==> final(self)@ == old(self)@ && change
                == TransferListChange::Ignored,
            has_state && has_meta ==> final(self)@ == (TransferListView {
                shown: old(self)@.shown.insert(id@),
                history_shown: old(self)@.history_shown,
            }) && change == (if old(self)@.shown.contains(id@) {
                TransferListChange::Updated
            } else {
                TransferListChange::Added
            }),
    {
        if !(has_state && has_meta) {
            return TransferListChange::Ignored;
        }
        if self.shown.insert(id) {
            TransferListChange::Added
        } else {
            TransferListChange::Updated
        }
    }

    /// The user cleared the transfer `id`: its row moves to the history.
    /// The result tells whether it was shown.
    pub fn clear(&mut self, id: &str) -> (moved: bool)
        requires
            old(self).well_formed(),
        ensures
            final(self).well_formed(),
            moved == old(self)@.shown.contains(id@),
            final(self)@ == (TransferListView {
                shown: old(self)@.shown.remove(id@),
                history_shown: old(self)@.history_shown || moved,
            }),
    {
        let moved = self.shown.remove(id);
        if moved {
            self.history_shown = true;
        }
        moved
    }

    /// Which parts of the section are shown.
    pub fn look(&self) -> (r: TransferSectionLook)
        ensures
            r == section_look_of(self@),
    {
        let empty = self.shown.is_empty();
        TransferSectionLook {
            list_visible: !empty,
            heading_visible: !empty,
            header_visible: !empty || self.history_shown,
            empty_page_visible: empty,
        }
    }
}

/// A transfer shown and then cleared leaves the list as it was without
/// it, and leaves the history button, and so the header, shown.
pub proof fn lemma_cleared_transfer_moves_to_history(v: TransferListView, id: Seq<char>)
    ensures
        ({
            let shown = TransferListView { shown: v.shown.insert(id), history_shown: v.history_shown };
            let cleared = TransferListView {
                shown: shown.shown.remove(id),
                history_shown: shown.history_shown || shown.shown.contains(id),
            };
            &&& cleared.shown == v.shown.remove(id)
            &&& cleared.history_shown
            &&& section_look_of(cleared).header_visible
        }),
{
    assert(v.shown.insert(id).remove(id) =~= v.shown.remove(id));
}

/// Which buttons a row offers at each stage: accepting and declining only
/// while the transfer waits for consent; cancelling only while files are
/// received or sent; opening, showing the folder and copying only once the
/// transfer finished, and then only where it saved something or carried a
/// text; trying again only after a rejected, cancelled or lost transfer
/// with files; clearing once the transfer is over. The PIN shows only
/// while waiting for consent, the progress only while files move and no
/// cancel is pending.
pub proof fn lemma_buttons_by_stage(s: State, pending_cancel: bool, f: TransferFacts)
    ensures
        ({
            let look = row_look_of(s, pending_cancel, f);
            let b = look.buttons;
            let waiting = s == State::WaitingForUserConsent;
            let moving_files = s == State::ReceivingFiles || s == State::SendingFiles;
            let went_wrong = s == State::Rejected || s == State::Cancelled || s
                == State::Disconnected;
            &&& b.accept == waiting
            &&& b.decline == waiting
            &&& b.cancel == moving_files
            &&& b.cancel_enabled == !(moving_files && pending_cancel)
            &&& b.open == (s == State::Finished && f.has_open_target)
            &&& b.show_folder == (s == State::Finished && f.has_open_target)
            &&& b.copy == (s == State::Finished && f.has_text)
            &&& b.retry == (went_wrong && f.has_files)
            &&& b.clear == (s == State::Finished || went_wrong)
            &&& look.pin_visible == (waiting && f.has_pin)
            &&& look.progress_visible == (moving_files && !pending_cancel)
            &&& (look.tone == RowTone::Error) == (went_wrong || (moving_files && pending_cancel))
            &&& (look.tone == RowTone::Success) == (s == State::Finished)
        }),
{
}

/// What a row keeps after it shows a stage: a rejected, cancelled or lost
/// transfer says so in those words; a finished one where it was saved, or
/// that it was received; one waiting for consent what is offered; nothing
/// but a finished transfer keeps something to open, and a finished one
/// without a destination keeps nothing.
pub proof fn lemma_row_keeps_stage_text(r: TransferRowView, m: TransferMeta)
    ensures
        row_after(r, State::Rejected, m).subtitle == "Transfer rejected"@,
        row_after(r, State::Cancelled, m).subtitle == "Transfer cancelled"@,
        row_after(r, State::Disconnected, m).subtitle == "Connection lost during transfer"@,
        row_after(r, State::Initial, m).subtitle == Seq::<char>::empty(),
        row_after(r, State::Finished, m).subtitle == match opt_text(m.destination) {
            Some(d) => "Saved to "@ + d,
            None => "Received"@,
        },
        row_after(r, State::WaitingForUserConsent, m).subtitle == offer_text_of(
            match m.files {
                Some(fs) => Some(fs@.len()),
                None => None,
            },
            m.has_text,
        ),
        forall|s: State| s != State::Finished ==> (#[trigger] row_after(r, s, m)).open_target is None,
        m.destination is None ==> row_after(r, State::Finished, m).open_target is None,
        m.destination is Some ==> row_after(r, State::Finished, m).open_target is Some,
        forall|s: State| (s == State::Rejected || s == State::Cancelled || s == State::Disconnected
            || s == State::Finished) ==> !(#[trigger] row_after(r, s, m)).pending_cancel,
{
    assert(row_after(r, State::Initial, m).subtitle == Seq::<char>::empty()) by {
        reveal_strlit("");
    }
}

/// The transfer section shows its list and heading while a transfer is
/// shown and the empty page while none is; its header stays while there
/// is a transfer or history.
pub proof fn lemma_section_look(v: TransferListView)
    ensures
        v.shown == Set::<Seq<char>>::empty() ==> {
            let l = section_look_of(v);
            &&& !l.list_visible && !l.heading_visible && l.empty_page_visible
            &&& l.header_visible == v.history_shown
        },
        v.shown != Set::<Seq<char>>::empty() ==> {
            let l = section_look_of(v);
            l.list_visible && l.heading_visible && l.header_visible && !l.empty_page_visible
        },
{
}

/// Once the sender's name is known, what a row holds after it shows a
/// transfer depends on the transfer and on a pending cancel alone: nothing
/// of earlier updates is left behind.
pub proof fn lemma_update_forgets_earlier_updates(
    a: TransferRowView,
    b: TransferRowView,
    s: State,
    m: TransferMeta,
)
    requires
        a.id == b.id,
        a.pending_cancel == b.pending_cancel,
        m.source_name is Some,
    ensures
        row_after(a, s, m) == row_after(b, s, m),
{
}

/// Showing the same transfer at the same stage again changes nothing.
pub proof fn lemma_update_is_idempotent(r: TransferRowView, s: State, m: TransferMeta)
    ensures
        row_after(row_after(r, s, m), s, m) == row_after(r, s, m),
{
}

/// A transfer that went wrong leaves a subtitle in the history from which
/// it may be retried; a finished one does not.
pub proof fn lemma_history_retry_follows_failure(s: State, pending_cancel: bool, f: TransferFacts, destination: Option<Seq<char>>)
    requires
        ended(s),
    ensures
        failed(s) ==> (fixed_subtitle_text(row_look_of(s, pending_cancel, f).subtitle) matches Some(t)
            && retryable_text(t)),
        s == State::Finished ==> row_look_of(s, pending_cancel, f).subtitle == RowSubtitle::Saved
            && !retryable_text(saved_text_of(destination)),
{
    if s == State::Finished {
        reveal_strlit("Saved to ");
        reveal_strlit("Received");
        reveal_strlit("Transfer rejected");
        reveal_strlit("Transfer cancelled");
        reveal_strlit("Connection lost during transfer");
        let t = saved_text_of(destination);
        assert(t[0] == 'S' || t[0] == 'R');
        assert("Transfer rejected"@[0] == 'T');
        assert("Transfer cancelled"@[0] == 'T');
        assert("Connection lost during transfer"@[0] == 'C');
        if t == "Received"@ {
            assert(t.len() == 8);
        }
    }
}

/// A cancel asked for during a transfer shows until the transfer ends:
/// while files move the row says it is cancelling, offers no progress and
/// no second cancel; once the transfer has ended, nothing is pending.
pub proof fn lemma_cancel_request_lasts_until_transfer_ends(s: State, f: TransferFacts)
    ensures
        moving(s) ==> {
            let look = row_look_of(s, true, f);
            &&& look.subtitle == RowSubtitle::Cancelling
            &&& look.tone == RowTone::Error
            &&& look.buttons.cancel && !look.buttons.cancel_enabled
            &&& !look.progress_visible
        },
        ended(s) ==> row_look_of(s, false, f) == row_look_of(s, true, f),
{
}

} // verus!
