//! What the screen shows of a session, as plain values. Drawing is the
//! caller's; the choices are made here.

use vstd::prelude::*;
use vstd::string::StringExecFns;
use crate::filter::views;
use crate::mode::InputMode;
use crate::record::{Password, PasswordView};
use crate::session::PassMng;

verus! {

/// The line that stands for a record in the list. While browsing it shows
/// the title, the username and the password; in every other mode the title
/// alone.
pub open spec fn label_of(record: PasswordView, mode: InputMode) -> Seq<char> {
    if mode == InputMode::List {
        record.title + ": "@ + record.username + " - "@ + record.password
    } else {
        record.title
    }
}

/// The share of the screen, in percent, left free on either side of a
/// centred box that takes `percent` of it.
pub open spec fn margin_of(percent: u16) -> int {
    (100 - percent) / 2
}

/// The line that stands for `record` in the list in the given mode.
pub fn item_label(record: &Password, mode: InputMode) -> (label: String)
    ensures
        label@ == label_of(record@, mode),
{
    match mode {
        InputMode::List => {
            let label = record.title.clone().concat(": ").concat(record.username.as_str()).concat(
                " - ",
            ).concat(record.password.as_str());
            assert(label@ =~= label_of(record@, mode));
            label
        },
        _ => record.title.clone(),
    }
}

/// The three shares, in percent, into which a centred box of `percent` splits
/// one direction of the screen: the margin before it, the box, the margin
/// after it.
pub fn centered_shares(percent: u16) -> (shares: (u16, u16, u16))
    requires
        percent <= 100,
    ensures
        shares.0 == margin_of(percent),
        shares.1 == percent,
        shares.2 == margin_of(percent),
        shares.0 + shares.1 + shares.2 <= 100,
{
    let margin: u16 = (100 - percent) / 2;
    (margin, percent, margin)
}

impl PassMng {
    /// The lines of the list on screen, one for each displayed record, in
    /// order.
    pub fn labels(&self) -> (lines: Vec<String>)
        ensures
            lines@.len() == self@.displayed().len(),
            forall|i: int|
                0 <= i < lines@.len() ==> (#[trigger] lines@[i])@ == label_of(
                    self@.displayed()[i],
                    self@.mode,
                ),
    {
        let shown = self.displayed();
        let mode = self.mode();
        let mut lines: Vec<String> = Vec::new();
        let mut i: usize = 0;
        while i < shown.len()
            invariant
                i <= shown.len(),
                lines@.len() == i,
                views(shown@) == self@.displayed(),
                forall|k: int|
                    0 <= k < i ==> (#[trigger] lines@[k])@ == label_of(views(shown@)[k], mode),
            decreases shown.len() - i,
        {
            lines.push(item_label(&shown[i], mode));
            i = i + 1;
        }
        lines
    }

    /// Is the delete prompt on screen?
    pub fn confirming_delete(&self) -> (shown: bool)
        ensures
            shown == (self@.mode == InputMode::Delete),
    {
        match self.mode() {
            InputMode::Delete => true,
            _ => false,
        }
    }
}

} // verus!
