//! Entries of the diagnostic log: which side a payload was read from, and the
//! bytes that record it.

use vstd::prelude::*;

verus! {

/// The side of the relay on which a logged payload was read.
#[derive(Clone, Copy, Debug, PartialEq, Eq, Structural)]
pub enum Origin {
    /// Read from the host's standard input.
    Host,
    /// Read from the transport.
    Transport,
}

/// One event for the log: a payload, and where it was read.
#[derive(Clone, Debug)]
pub struct LogEvent {
    pub origin: Origin,
    pub payload: Vec<u8>,
}

impl View for LogEvent {
    type V = (Origin, Seq<u8>);

    open spec fn view(&self) -> (Origin, Seq<u8>) {
        (self.origin, self.payload@)
    }
}

/// The text that heads the entries of one origin.
pub open spec fn label_text(origin: Origin) -> Seq<char> {
    match origin {
        Origin::Host => "\nread_stdin:\n"@,
        Origin::Transport => "\nread_socket:\n"@,
    }
}

/// The bytes of one log entry: the label's text in UTF-8, the payload as it
/// is, and a newline.
pub open spec fn entry_bytes(origin: Origin, payload: Seq<u8>) -> Seq<u8> {
    vstd::utf8::encode_utf8(label_text(origin)) + payload + seq![10u8]
}

/// The label that heads the entries of `origin`.
pub fn label(origin: Origin) -> (text: &'static str)
    ensures
        text@ == label_text(origin),
{
    match origin {
        Origin::Host => "\nread_stdin:\n",
        Origin::Transport => "\nread_socket:\n",
    }
}

/// Renders one event as the bytes to append to the log.
pub fn log_entry(event: &LogEvent) -> (entry: Vec<u8>)
    ensures
        entry@ == entry_bytes(event.origin, event.payload@),
{
    let text: &'static str = label(event.origin);
    let mut entry: Vec<u8> = Vec::new();
    entry.extend_from_slice(text.as_bytes());
    entry.extend_from_slice(event.payload.as_slice());
    entry.push(10u8);
    assert(entry@ =~= entry_bytes(event.origin, event.payload@));
    entry
}

/// The labels are plain ASCII, so their bytes in the log are their
/// characters, one byte each.
pub proof fn label_bytes(origin: Origin)
    ensures
        vstd::utf8::encode_utf8(label_text(origin)) == match origin {
            Origin::Host => seq![
                10u8, 114u8, 101u8, 97u8, 100u8, 95u8, 115u8, 116u8, 100u8, 105u8, 110u8, 58u8,
                10u8,
            ],
            Origin::Transport => seq![
                10u8, 114u8, 101u8, 97u8, 100u8, 95u8, 115u8, 111u8, 99u8, 107u8, 101u8, 116u8,
                58u8, 10u8,
            ],
        },
{
    reveal_strlit("\nread_stdin:\n");
    reveal_strlit("\nread_socket:\n");
    let text = label_text(origin);
    assert(vstd::utf8::is_ascii_chars(text));
    vstd::utf8::is_ascii_chars_encode_utf8(text);
    match origin {
        Origin::Host => {
            assert(vstd::utf8::encode_utf8(text) =~= seq![
                10u8, 114u8, 101u8, 97u8, 100u8, 95u8, 115u8, 116u8, 100u8, 105u8, 110u8, 58u8,
                10u8,
            ]);
        },
        Origin::Transport => {
            assert(vstd::utf8::encode_utf8(text) =~= seq![
                10u8, 114u8, 101u8, 97u8, 100u8, 95u8, 115u8, 111u8, 99u8, 107u8, 101u8, 116u8,
                58u8, 10u8,
            ]);
        },
    }
}

} // verus!
