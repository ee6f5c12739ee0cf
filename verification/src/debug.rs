//! The bag in debugging output.
use crate::bag::DiplomaticBag;
use crate::error::Error;
use crate::handler::BaggageHandler;
use crate::worker::{entrust, erase, Errand, Job, Task, Worker};
use std::fmt;
use vstd::prelude::*;

verus! {

/// `format!` with `{:?}`. What the text is, the type of the value decides:
/// nothing is claimed of it.
#[verifier::external_body]
pub(crate) fn plain_text<T: fmt::Debug>(value: &T) -> (text: String) {
    format!("{:?}", value)
}

/// `format!` with `{:#?}`. What the text is, the type of the value decides:
/// nothing is claimed of it.
#[verifier::external_body]
pub(crate) fn alternate_text<T: fmt::Debug>(value: &T) -> (text: String) {
    format!("{:#?}", value)
}

/// `String::push` puts a character at the end of the string.
pub assume_specification[ String::push ](text: &mut String, c: char)
    ensures
        final(text)@ == old(text)@.push(c),
;

/// A text with every line but the first moved to the right by four spaces.
pub open spec fn indented(text: Seq<char>) -> Seq<char>
    decreases text.len(),
{
    if text.len() == 0 {
        text
    } else if text.last() == '\n' {
        indented(text.drop_last()) + "\n    "@
    } else {
        indented(text.drop_last()).push(text.last())
    }
}

/// The debugging output of a bag whose value has the debugging output `inner`.
pub open spec fn framed(inner: Seq<char>, alternate: bool) -> Seq<char> {
    if alternate {
        "DiplomaticBag {\n    inner: "@ + indented(inner) + ",\n}"@
    } else {
        "DiplomaticBag { inner: "@ + inner + " }"@
    }
}

/// `inner` can be the debugging output of `value`, in the alternate form or not.
pub closed spec fn outputs<T: fmt::Debug>(value: T, alternate: bool, inner: String) -> bool {
    if alternate {
        call_ensures(alternate_text::<T>, (&value,), inner)
    } else {
        call_ensures(plain_text::<T>, (&value,), inner)
    }
}

/// What [`outputs`] says: the text can have come of formatting the value in that form.
pub(crate) proof fn outputs_are_the_texts<T: fmt::Debug>(value: T, alternate: bool, inner: String)
    requires
        outputs(value, alternate, inner),
    ensures
        alternate ==> call_ensures(alternate_text::<T>, (&value,), inner),
        !alternate ==> call_ensures(plain_text::<T>, (&value,), inner),
{
}

/// Puts the debugging output of a value into that of its bag: as a structure of
/// the name `DiplomaticBag` with the one field `inner`, on one line, or, in the
/// alternate form, on several. The inner text is taken as it is.
pub fn frame(inner: &str, alternate: bool) -> (text: String)
    ensures
        text@ == framed(inner@, alternate),
{
    let mut text: String;
    if alternate {
        text = "DiplomaticBag {\n    inner: ".to_string();
        let ghost start = text@;
        for c in chars: inner.chars()
            invariant
                chars.seq() == inner@,
                text@ == start + indented(inner@.take(chars.index())),
        {
            let ghost read = inner@.take(chars.index() + 1);
            assert(read.drop_last() =~= inner@.take(chars.index()));
            if c == '\n' {
                text.append("\n    ");
            } else {
                text.push(c);
            }
            assert(text@ =~= start + indented(read));
        }
        assert(inner@.take(inner@.len() as int) =~= inner@);
        text.append(",\n}");
    } else {
        text = "DiplomaticBag { inner: ".to_string();
        text.append(inner);
        text.append(" }");
    }
    text
}

/// The task of making the debugging output of the value in a bag.
pub struct Showing<'a, T> {
    /// The bag.
    pub bag: &'a DiplomaticBag<T>,
    /// Whether in the alternate form.
    pub alternate: bool,
}

impl<'a, T: fmt::Debug> Task<String> for Showing<'a, T> {
    open spec fn callable(self) -> bool {
        true
    }

    open spec fn gives(self, inner: String) -> bool {
        outputs(self.bag@, self.alternate, inner)
    }

    fn call(self, handler: BaggageHandler) -> (inner: String) {
        let value = handler.unwrap(self.bag.as_ref());
        if self.alternate {
            alternate_text(value)
        } else {
            plain_text(value)
        }
    }
}

impl<T: fmt::Debug> DiplomaticBag<T> {
    /// The bag for debugging output, in the alternate form or not. The value's own
    /// output is made on the worker's thread.
    pub fn fmt<'a, I: PartialEq>(
        &'a self,
        alternate: bool,
        worker: &Worker<dyn Errand + 'a, I>,
        current: &I,
    ) -> (told: Result<String, Error>)
        ensures
            worker.is_on(current) ==> told is Ok,
            exists|inner: Result<String, Error>|
                {
                    &&& #[trigger] crate::worker::settles(
                        worker,
                        current,
                        erase::<Job<String, Showing<'a, T>>>,
                        (Showing { bag: self, alternate }),
                        inner,
                    )
                    &&& match inner {
                        Ok(output) => told matches Ok(text) && text@ == framed(output@, alternate),
                        Err(error) => told == Err::<String, Error>(error),
                    }
                },
    {
        let inner = entrust(worker, current, Showing { bag: self, alternate });
        let ghost came = inner;
        assert(crate::worker::settles(
            worker,
            current,
            erase::<Job<String, Showing<'a, T>>>,
            (Showing { bag: self, alternate }),
            came,
        ));
        match inner {
            Ok(output) => Ok(frame(output.as_str(), alternate)),
            Err(error) => Err(error),
        }
    }
}

} // verus!
