//! The annotation attached to every transfer.

use crate::text::{decimal, opt_text, u64_to_decimal};
use vstd::prelude::*;
use vstd::string::*;

verus! {

/// The longest note a memo takes, in characters.
pub const MAX_NOTE_CHARS: usize = 16;

/// The memo of a transfer: seven fields separated by `|`, the last of which
/// is the note and may be empty.
pub open spec fn memo_text(
    token_type: Seq<char>,
    from: Seq<char>,
    to: Seq<char>,
    amount: u64,
    yid: Seq<char>,
    note: Seq<char>,
) -> Seq<char> {
    "fuego|"@ + token_type + "|f:"@ + from + "|t:"@ + to + "|a:"@ + decimal(amount as nat)
        + "|yid:"@ + yid + "|n:"@ + note
}

/// What a note of `len` characters is refused with.
pub open spec fn note_too_long_text(len: nat) -> Seq<char> {
    "Notes must be 16 characters or less, got "@ + decimal(len)
}

/// Whether a note is within the limit. No note at all is.
pub open spec fn note_fits(notes: Option<Seq<char>>) -> bool {
    match notes {
        Some(n) => n.len() <= MAX_NOTE_CHARS,
        None => true,
    }
}

/// The note as it stands in the memo: empty where there is none.
pub open spec fn note_or_empty(notes: Option<Seq<char>>) -> Seq<char> {
    match notes {
        Some(n) => n,
        None => Seq::empty(),
    }
}

/// The length of the note, 0 where there is none.
pub open spec fn note_len(notes: Option<Seq<char>>) -> nat {
    note_or_empty(notes).len()
}

/// Renders the memo of a transfer. A note longer than 16 characters is
/// refused, never cut; the other fields are taken as they are.
pub fn build_memo(
    token_type: &str,
    from: &str,
    to: &str,
    amount: u64,
    yid: &str,
    notes: Option<&str>,
) -> (r: Result<String, String>)
    ensures
        r is Ok <==> note_fits(opt_text(notes)),
        r matches Ok(memo) ==> memo@ == memo_text(
            token_type@,
            from@,
            to@,
            amount,
            yid@,
            note_or_empty(opt_text(notes)),
        ),
        r matches Err(message) ==> message@ == note_too_long_text(note_len(opt_text(notes))),
{
    let notes_part = match notes {
        Some(n) => {
            let len = n.unicode_len();
            if len > MAX_NOTE_CHARS {
                let mut message = String::from_str("Notes must be 16 characters or less, got ");
                let count = u64_to_decimal(len as u64);
                message.append(count.as_str());
                return Err(message);
            }
            n
        },
        None => {
            proof {
                reveal_strlit("");
            }
            ""
        },
    };
    let mut memo = String::from_str("fuego|");
    memo.append(token_type);
    memo.append("|f:");
    memo.append(from);
    memo.append("|t:");
    memo.append(to);
    memo.append("|a:");
    let amount_text = u64_to_decimal(amount);
    memo.append(amount_text.as_str());
    memo.append("|yid:");
    memo.append(yid);
    memo.append("|n:");
    memo.append(notes_part);
    Ok(memo)
}

} // verus!
