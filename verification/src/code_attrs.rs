//! The state of a code generation: the counters of temporaries and
//! labels, the label that a `break` jumps to, and the code emitted so
//! far.

use vstd::prelude::*;
use vstd::string::*;
use crate::text::{append_decimal, decimal};

verus! {

/// The state of a code generation.
#[derive(Debug, PartialEq, Eq)]
pub struct CodeAttrs {
    register_counter: u32,
    label_counter: u32,
    break_label: String,
    pub code: String,
}

/// The mathematical value of a [`CodeAttrs`].
pub struct CodeAttrsView {
    /// How many temporaries were made.
    pub register_counter: nat,
    /// How many labels were made.
    pub label_counter: nat,
    /// The label behind the innermost loop entered last.
    pub break_label: Seq<char>,
    /// The code emitted so far.
    pub code: Seq<char>,
}

impl View for CodeAttrs {
    type V = CodeAttrsView;

    closed spec fn view(&self) -> CodeAttrsView {
        CodeAttrsView {
            register_counter: self.register_counter as nat,
            label_counter: self.label_counter as nat,
            break_label: self.break_label@,
            code: self.code@,
        }
    }
}

/// The largest value that a counter can take.
pub open spec fn counter_limit() -> nat {
    u32::MAX as nat
}

impl CodeAttrsView {
    /// The state before anything was generated.
    pub open spec fn fresh() -> CodeAttrsView {
        CodeAttrsView {
            register_counter: 0,
            label_counter: 0,
            break_label: Seq::empty(),
            code: Seq::empty(),
        }
    }

    /// The state with `text` added to the code.
    pub open spec fn emit(self, text: Seq<char>) -> CodeAttrsView {
        CodeAttrsView {
            register_counter: self.register_counter,
            label_counter: self.label_counter,
            break_label: self.break_label,
            code: self.code + text,
        }
    }

    /// The name of the temporary that is made next.
    pub open spec fn next_temp(self) -> Seq<char> {
        seq!['t'] + decimal(self.register_counter + 1)
    }

    /// The name of the label that is made next.
    pub open spec fn next_label(self) -> Seq<char> {
        seq!['L'] + decimal(self.label_counter + 1)
    }

    /// The state after a temporary was made.
    pub open spec fn with_temp(self) -> CodeAttrsView {
        CodeAttrsView {
            register_counter: self.register_counter + 1,
            label_counter: self.label_counter,
            break_label: self.break_label,
            code: self.code,
        }
    }

    /// The state after a label was made.
    pub open spec fn with_label(self) -> CodeAttrsView {
        CodeAttrsView {
            register_counter: self.register_counter,
            label_counter: self.label_counter + 1,
            break_label: self.break_label,
            code: self.code,
        }
    }

    /// The state in which a `break` jumps to `label`.
    pub open spec fn with_scope_end(self, label: Seq<char>) -> CodeAttrsView {
        CodeAttrsView {
            register_counter: self.register_counter,
            label_counter: self.label_counter,
            break_label: label,
            code: self.code,
        }
    }
}

impl CodeAttrs {
    /// The state before anything was generated: both counters at zero,
    /// no label and no code.
    pub fn new() -> (r: Self)
        ensures
            r@ == CodeAttrsView::fresh(),
    {
        CodeAttrs {
            register_counter: 0,
            label_counter: 0,
            break_label: String::new(),
            code: String::new(),
        }
    }

    /// Whether one more temporary can be made.
    pub fn has_temp(&self) -> (r: bool)
        ensures
            r == (self@.register_counter < counter_limit()),
    {
        self.register_counter < u32::MAX
    }

    /// Whether one more label can be made.
    pub fn has_label(&self) -> (r: bool)
        ensures
            r == (self@.label_counter < counter_limit()),
    {
        self.label_counter < u32::MAX
    }

    /// Makes a temporary: counts it and returns its name, the letter t
    /// and the count.
    pub fn create_temp(&mut self) -> (r: String)
        requires
            old(self)@.register_counter < counter_limit(),
        ensures
            r@ == old(self)@.next_temp(),
            final(self)@ == old(self)@.with_temp(),
    {
        self.register_counter += 1;
        proof {
            reveal_strlit("t");
        }
        let mut temp = String::from_str("t");
        append_decimal(&mut temp, self.register_counter as u64);
        assert(temp@ =~= old(self)@.next_temp());
        temp
    }

    /// Makes a label: counts it and returns its name, the letter L and
    /// the count.
    pub fn create_label(&mut self) -> (r: String)
        requires
            old(self)@.label_counter < counter_limit(),
        ensures
            r@ == old(self)@.next_label(),
            final(self)@ == old(self)@.with_label(),
    {
        self.label_counter += 1;
        proof {
            reveal_strlit("L");
        }
        let mut label = String::from_str("L");
        append_decimal(&mut label, self.label_counter as u64);
        assert(label@ =~= old(self)@.next_label());
        label
    }

    /// The label that a `break` jumps to.
    pub fn get_scope_label(&self) -> (r: &String)
        ensures
            r@ == self@.break_label,
    {
        &self.break_label
    }

    /// Sets the label that a `break` jumps to.
    pub fn set_scope_end(&mut self, label: String)
        ensures
            final(self)@ == old(self)@.with_scope_end(label@),
    {
        self.break_label = label;
    }

    /// Adds `text` to the code.
    pub fn emit(&mut self, text: &str)
        ensures
            final(self)@ == old(self)@.emit(text@),
    {
        self.code.append(text);
    }

    /// The code emitted so far.
    pub fn code(&self) -> (r: &String)
        ensures
            r@ == self@.code,
    {
        &self.code
    }
}

} // verus!
