//! The line at the foot of the screen: the keys that the browser answers to.

use vstd::prelude::*;
use vstd::string::StringExecFns;
use crate::text::push_char;

verus! {

/// The columns that the label of one key takes on the line.
pub const KEY_LABEL_LENGTH: u16 = 12;

/// A key and what it does.
#[derive(Debug)]
pub struct FunctionKey {
    label: String,
    key: String,
}

impl FunctionKey {
    /// What the key does, in a word.
    pub closed spec fn spec_label(&self) -> Seq<char> {
        self.label@
    }

    /// The name of the key.
    pub closed spec fn spec_key(&self) -> Seq<char> {
        self.key@
    }

    /// The key named `key`, which does what `label` says.
    pub fn new(label: &str, key: &str) -> (made: Self)
        ensures
            made.spec_label() == label@,
            made.spec_key() == key@,
    {
        Self { label: String::from_str(label), key: String::from_str(key) }
    }

    /// What the key does, in a word.
    pub fn label(&self) -> (label: &str)
        ensures
            label@ == self.spec_label(),
    {
        self.label.as_str()
    }

    /// The name of the key.
    pub fn key(&self) -> (key: &str)
        ensures
            key@ == self.spec_key(),
    {
        self.key.as_str()
    }

    /// The name of the key between angle brackets.
    pub fn caption(&self) -> (caption: String)
        ensures
            caption@ == seq!['<'] + self.spec_key() + seq!['>'],
    {
        let mut caption = String::new();
        push_char(&mut caption, '<');
        caption.append(self.key.as_str());
        push_char(&mut caption, '>');
        caption
    }
}

} // verus!
