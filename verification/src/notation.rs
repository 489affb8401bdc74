//! The bracket notation of a range.

use crate::bound::Bound;
use crate::range::Range;
use vstd::prelude::*;
use vstd::string::StringExecFns;

verus! {

impl<T> Bound<T> {
    /// A lower endpoint opens with `[` where it is inclusive, with `(`
    /// otherwise.
    pub open spec fn opening(self) -> Seq<char> {
        if self is Inclusive {
            seq!['[']
        } else {
            seq!['(']
        }
    }

    /// An upper endpoint closes with `]` where it is inclusive, with `)`
    /// otherwise.
    pub open spec fn closing(self) -> Seq<char> {
        if self is Inclusive {
            seq![']']
        } else {
            seq![')']
        }
    }

    /// What an endpoint shows of its limit, `text` being the limit written
    /// out: an endpoint without a limit shows nothing.
    pub open spec fn shown(self, text: Seq<char>) -> Seq<char> {
        if self is Unbounded {
            Seq::empty()
        } else {
            text
        }
    }
}

impl<T> Range<T> {
    /// The notation of a range whose limits are written as `lower_text` and
    /// `upper_text`: the opening bracket, the lower limit, a comma, the upper
    /// limit, the closing bracket. The empty range is written `(empty)`.
    pub open spec fn notation(self, lower_text: Seq<char>, upper_text: Seq<char>) -> Seq<char> {
        match self {
            Range::Inhabited(interval) => interval.lower.opening() + interval.lower.shown(
                lower_text,
            ) + seq![','] + interval.upper.shown(upper_text) + interval.upper.closing(),
            Range::Empty => seq!['(', 'e', 'm', 'p', 't', 'y', ')'],
        }
    }

    /// Writes the range in bracket notation, with its limits written as
    /// `lower_text` and `upper_text`. The text of a side without a limit is
    /// not used.
    pub fn write_with(&self, lower_text: &str, upper_text: &str) -> (r: String)
        ensures
            r@ == self.notation(lower_text@, upper_text@),
    {
        proof {
            reveal_strlit("(empty)");
            reveal_strlit("[");
            reveal_strlit("(");
            reveal_strlit(",");
            reveal_strlit("]");
            reveal_strlit(")");
        }
        match self {
            Range::Inhabited(range) => {
                let mut text = match range.lower {
                    Bound::Inclusive(_) => "[".to_owned(),
                    _ => "(".to_owned(),
                };
                if range.lower.is_bounded() {
                    text.append(lower_text);
                }
                text.append(",");
                if range.upper.is_bounded() {
                    text.append(upper_text);
                }
                match range.upper {
                    Bound::Inclusive(_) => text.append("]"),
                    _ => text.append(")"),
                }
                assert(text@ =~= self.notation(lower_text@, upper_text@));
                text
            },
            Range::Empty => {
                let text = "(empty)".to_owned();
                assert(text@ =~= self.notation(lower_text@, upper_text@));
                text
            },
        }
    }
}

impl<T: std::fmt::Display> Bound<T> {
    /// `text` is what `T` may write for the limit of this endpoint. Nothing
    /// is asked of `text` where there is no limit.
    pub open spec fn limit_written(self, text: String) -> bool {
        match self.limit() {
            Some(value) => vstd::string::to_string_from_display_ensures::<T>(&value, text),
            None => true,
        }
    }

    /// The limit written out as `T` displays it; the empty text where there
    /// is no limit.
    pub fn limit_text(&self) -> (r: String)
        ensures
            self.limit_written(r),
            self is Unbounded ==> r@ == Seq::<char>::empty(),
    {
        match self {
            Bound::Inclusive(value) => value.to_string(),
            Bound::Exclusive(value) => value.to_string(),
            Bound::Unbounded => String::new(),
        }
    }
}

impl<T: std::fmt::Display> Range<T> {
    /// The range in bracket notation, each limit written as `T` displays it.
    pub fn to_text(&self) -> (r: String)
        ensures
            match *self {
                Range::Inhabited(interval) => exists|lower_text: String, upper_text: String|
                    {
                        &&& #[trigger] interval.lower.limit_written(lower_text)
                        &&& #[trigger] interval.upper.limit_written(upper_text)
                        &&& r@ == self.notation(lower_text@, upper_text@)
                    },
                Range::Empty => r@ == self.notation(Seq::empty(), Seq::empty()),
            },
    {
        match self {
            Range::Inhabited(range) => {
                let lower_text = range.lower.limit_text();
                let upper_text = range.upper.limit_text();
                self.write_with(lower_text.as_str(), upper_text.as_str())
            },
            Range::Empty => self.write_with("", ""),
        }
    }
}

} // verus!
