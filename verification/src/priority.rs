//! Task priorities and their textual forms.

use crate::text::same_text;
use vstd::prelude::*;

verus! {

/// How urgent a task is.
#[derive(Clone, Copy, Debug, PartialEq, Eq, Structural)]
pub enum Priority {
    Low,
    Medium,
    High,
}

/// The lower-case form of a text, as `str::to_lowercase` computes it.
pub uninterp spec fn lowercased(text: Seq<char>) -> Seq<char>;

/// Calls `str::to_lowercase`. The contract only names the result: the call
/// depends on nothing but the text it is given.
#[verifier::external_body]
fn lowercase(text: &str) -> (lowered: String)
    ensures
        lowered@ == lowercased(text@),
{
    text.to_lowercase()
}

impl Priority {
    /// The display label of a priority, with its exact capitalisation.
    pub open spec fn label(self) -> Seq<char> {
        match self {
            Priority::Low => "Low"@,
            Priority::Medium => "Medium"@,
            Priority::High => "High"@,
        }
    }

    /// The priority that a label stands for, if any. Labels are matched
    /// exactly, capitals included.
    pub open spec fn of_label(label: Seq<char>) -> Option<Priority> {
        if label == "Low"@ {
            Some(Priority::Low)
        } else if label == "Medium"@ {
            Some(Priority::Medium)
        } else if label == "High"@ {
            Some(Priority::High)
        } else {
            None
        }
    }

    /// The priority that an already lower-cased word stands for, if any.
    pub open spec fn of_lowered(word: Seq<char>) -> Option<Priority> {
        if word == "low"@ {
            Some(Priority::Low)
        } else if word == "medium"@ {
            Some(Priority::Medium)
        } else if word == "high"@ {
            Some(Priority::High)
        } else {
            None
        }
    }

    /// The display label: "Low", "Medium" or "High".
    pub fn to_string(&self) -> (text: String)
        ensures
            text@ == self.label(),
    {
        match self {
            Priority::Low => String::from_str("Low"),
            Priority::Medium => String::from_str("Medium"),
            Priority::High => String::from_str("High"),
        }
    }

    /// Reads a display label back. Only the three exact labels are accepted.
    pub fn from_label(label: &str) -> (priority: Option<Priority>)
        ensures
            priority == Priority::of_label(label@),
    {
        if same_text(label, "Low") {
            Some(Priority::Low)
        } else if same_text(label, "Medium") {
            Some(Priority::Medium)
        } else if same_text(label, "High") {
            Some(Priority::High)
        } else {
            None
        }
    }

    /// Recognises a word that is already in lower case.
    pub fn from_lowered(word: &str) -> (priority: Option<Priority>)
        ensures
            priority == Priority::of_lowered(word@),
    {
        if same_text(word, "low") {
            Some(Priority::Low)
        } else if same_text(word, "medium") {
            Some(Priority::Medium)
        } else if same_text(word, "high") {
            Some(Priority::High)
        } else {
            None
        }
    }

    /// Recognises a priority typed by a person, whatever its capitalisation.
    pub fn from_text(text: &str) -> (priority: Option<Priority>)
        ensures
            priority == Priority::of_lowered(lowercased(text@)),
    {
        let lowered = lowercase(text);
        Priority::from_lowered(lowered.as_str())
    }

    /// Like [`Priority::from_text`], but an unrecognised text counts as
    /// [`Priority::Low`].
    pub fn from_text_or_low(text: &str) -> (priority: Priority)
        ensures
            priority == match Priority::of_lowered(lowercased(text@)) {
                Some(known) => known,
                None => Priority::Low,
            },
    {
        match Priority::from_text(text) {
            Some(known) => known,
            None => Priority::Low,
        }
    }
}

/// Reading a label back gives the priority it was made from.
pub proof fn lemma_label_round_trip(priority: Priority)
    ensures
        Priority::of_label(priority.label()) == Some(priority),
{
    reveal_strlit("Low");
    reveal_strlit("Medium");
    reveal_strlit("High");
    assert("Low"@.len() == 3);
    assert("Medium"@.len() == 6);
    assert("High"@.len() == 4);
    assert("High"@[0] == 'H');
    assert("Low"@[0] == 'L');
}

} // verus!
