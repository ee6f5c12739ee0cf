use crossbeam_channel::unbounded;
use diplomatic_bag::{frame, BaggageHandler, Errand, Worker};
use std::fmt;

const HOME: u64 = 0;

fn home<'a>() -> Worker<dyn Errand + 'a, u64> {
    let (tasks, _queue) = unbounded();
    Worker::new(tasks, HOME)
}

fn bag<'a, T: 'a>(value: T) -> diplomatic_bag::DiplomaticBag<T> {
    diplomatic_bag::DiplomaticBag::new(&home(), &HOME, move |_: BaggageHandler| value).unwrap()
}

/// A text that is its own debugging output.
struct AsIs(&'static str);

impl fmt::Debug for AsIs {
    fn fmt(&self, f: &mut fmt::Formatter<'_>) -> fmt::Result {
        f.write_str(self.0)
    }
}

/// A structure of the same shape, as the standard library prints it.
#[derive(Debug)]
#[allow(dead_code)]
struct DiplomaticBag<T> {
    inner: T,
}

#[derive(Debug, Clone)]
#[allow(dead_code)]
struct Pair {
    left: u8,
    right: Option<&'static str>,
}

#[test]
fn frame_on_one_line() {
    assert_eq!(frame("5", false), "DiplomaticBag { inner: 5 }");
    assert_eq!(frame("", false), "DiplomaticBag { inner:  }");
    assert_eq!(frame("a\nb", false), "DiplomaticBag { inner: a\nb }");
}

#[test]
fn frame_on_several_lines() {
    assert_eq!(frame("5", true), "DiplomaticBag {\n    inner: 5,\n}");
    assert_eq!(
        frame("a\n\nb\n", true),
        "DiplomaticBag {\n    inner: a\n    \n    b\n    ,\n}"
    );
}

#[test]
fn frame_is_that_of_a_structure() {
    for text in ["", "x", "two\nlines", "\n", "\n\n", "ends\n", "\u{e9}\u{1f4bc}\n\t"] {
        let shape = DiplomaticBag { inner: AsIs(text) };
        assert_eq!(frame(text, false), format!("{:?}", shape));
        assert_eq!(frame(text, true), format!("{:#?}", shape));
    }
}

#[test]
fn bag_shows_its_value() {
    let value = Pair {
        left: 1,
        right: Some("r"),
    };
    let shape = DiplomaticBag {
        inner: value.clone(),
    };
    let bag = bag(value);
    assert_eq!(
        bag.fmt(false, &home(), &HOME),
        Ok("DiplomaticBag { inner: Pair { left: 1, right: Some(\"r\") } }".to_string())
    );
    assert_eq!(bag.fmt(false, &home(), &HOME), Ok(format!("{:?}", shape)));
    assert_eq!(bag.fmt(true, &home(), &HOME), Ok(format!("{:#?}", shape)));
}
