//! The combinator core: a minimal algebra of parser values.
//!
//! A parser is a value whose `parse` method attempts a match on the source
//! text at a position and, on success, returns the position just past what it
//! consumed together with the produced value. The trait contract holds every
//! implementation to the two laws the algebra rests on: the remaining input
//! is always a suffix of what was given (the position never moves backwards
//! or past the end), and a parser whose `consumes` flag is set never succeeds
//! on zero characters, which is what keeps repetition from looping forever.
//! A failed parse consumes nothing, so alternation can retry from the same
//! position.

use vstd::prelude::*;
use vstd::string::StrSliceExecFns;

use crate::parser::{
    ignored_end, spec_multi_line_comment, spec_single_line_comment, spec_whitespace,
    spec_ws_or_comment,
};

verus! {

/// A parser over the source text. `spec_parse` is the mathematical meaning;
/// `parse` is the executable attempt, proved to agree with it.
pub trait Parser: Sized {
    type Output: DeepView;

    /// What `parse` asks of the parser value itself.
    spec fn wf(&self) -> bool;

    /// Whether every success consumes at least one character. Repetition
    /// requires this of its inner parser.
    spec fn consumes(&self) -> bool;

    /// What `parse` returns at `pos`: no match, or the position just past
    /// what was consumed and the model of the produced value.
    spec fn spec_parse(&self, s: Seq<char>, pos: int) -> Option<
        (int, <Self::Output as DeepView>::V),
    >;

    /// Attempts a parse of `source` at `pos`. On success the new position
    /// never lies before `pos` nor past the end of the input; on failure
    /// nothing is consumed.
    fn parse(&self, source: &str, pos: usize) -> (r: Option<(usize, Self::Output)>)
        requires
            self.wf(),
            pos <= source@.len(),
        ensures
            match r {
                Some((p, v)) => self.spec_parse(source@, pos as int) == Some(
                    (p as int, v.deep_view()),
                ) && pos <= p <= source@.len() && (self.consumes() ==> pos < p),
                None => self.spec_parse(source@, pos as int) is None,
            },
    ;

    /// Runs the parser on the whole source and demands that it consume every
    /// character: a parse that leaves anything behind fails, even though a
    /// prefix matched.
    fn parse_to_completion(&self, source: &str) -> (r: Result<Self::Output, ()>)
        requires
            self.wf(),
        ensures
            match r {
                Ok(v) => self.spec_parse(source@, 0) == Some(
                    (source@.len() as int, v.deep_view()),
                ),
                Err(_) => (match self.spec_parse(source@, 0) {
                    Some((p, _)) => p != source@.len(),
                    None => true,
                }),
            },
    {
        let len = source.unicode_len();
        match self.parse(source, 0) {
            Some((p, v)) => if p == len {
                Ok(v)
            } else {
                Err(())
            },
            None => Err(()),
        }
    }

}

/// Always succeeds without consuming anything, yielding a fixed value; used
/// to supply default results.
pub struct Constant<T>(pub T);

impl<T: Copy + DeepView> Constant<T> {
    /// Wraps the value that every parse will yield.
    pub fn new(value: T) -> (r: Self)
        ensures
            r.0 == value,
    {
        Constant(value)
    }
}

impl<T: Copy + DeepView> Parser for Constant<T> {
    type Output = T;

    open spec fn wf(&self) -> bool {
        true
    }

    open spec fn consumes(&self) -> bool {
        false
    }

    open spec fn spec_parse(&self, s: Seq<char>, pos: int) -> Option<(int, T::V)> {
        Some((pos, self.0.deep_view()))
    }

    fn parse(&self, source: &str, pos: usize) -> (r: Option<(usize, T)>) {
        proof {
            assert(!self.consumes());
        }
        Some((pos, self.0))
    }
}

/// Alternation: try the first parser; if it signals no match, try the second
/// on the original, unconsumed input. First match wins.
pub struct Choice<P1, P2>(pub P1, pub P2);

impl<T: DeepView, P1: Parser<Output = T>, P2: Parser<Output = T>> Parser for Choice<P1, P2> {
    type Output = T;

    open spec fn wf(&self) -> bool {
        self.0.wf() && self.1.wf()
    }

    open spec fn consumes(&self) -> bool {
        self.0.consumes() && self.1.consumes()
    }

    open spec fn spec_parse(&self, s: Seq<char>, pos: int) -> Option<(int, T::V)> {
        match self.0.spec_parse(s, pos) {
            Some(r) => Some(r),
            None => self.1.spec_parse(s, pos),
        }
    }

    fn parse(&self, source: &str, pos: usize) -> (r: Option<(usize, T)>) {
        proof {
            assert(self.consumes() == (self.0.consumes() && self.1.consumes()));
        }
        match self.0.parse(source, pos) {
            Some(r) => Some(r),
            None => self.1.parse(source, pos),
        }
    }
}

/// Sequencing: run the first parser, feed its remaining input to the second,
/// discard the first value and return the second.
pub struct And<P1, P2>(pub P1, pub P2);

impl<P1: Parser, P2: Parser> Parser for And<P1, P2> {
    type Output = P2::Output;

    open spec fn wf(&self) -> bool {
        self.0.wf() && self.1.wf()
    }

    open spec fn consumes(&self) -> bool {
        self.0.consumes() || self.1.consumes()
    }

    open spec fn spec_parse(&self, s: Seq<char>, pos: int) -> Option<
        (int, <P2::Output as DeepView>::V),
    > {
        match self.0.spec_parse(s, pos) {
            Some((m, _)) => if pos <= m <= s.len() {
                self.1.spec_parse(s, m)
            } else {
                None
            },
            None => None,
        }
    }

    fn parse(&self, source: &str, pos: usize) -> (r: Option<(usize, P2::Output)>) {
        proof {
            assert(self.consumes() == (self.0.consumes() || self.1.consumes()));
        }
        match self.0.parse(source, pos) {
            Some((m, _)) => self.1.parse(source, m),
            None => None,
        }
    }
}

/// Optionality: apply the inner parser; wrap success as present, turn failure
/// into an absent value with nothing consumed. Always succeeds.
pub struct Maybe<P>(pub P);

impl<P: Parser> Maybe<P> {
    /// Wraps the parser to be tried.
    pub fn new(parser: P) -> (r: Self)
        ensures
            r.0 == parser,
    {
        Maybe(parser)
    }
}

impl<P: Parser> Parser for Maybe<P> {
    type Output = Option<P::Output>;

    open spec fn wf(&self) -> bool {
        self.0.wf()
    }

    open spec fn consumes(&self) -> bool {
        false
    }

    open spec fn spec_parse(&self, s: Seq<char>, pos: int) -> Option<
        (int, Option<<P::Output as DeepView>::V>),
    > {
        match self.0.spec_parse(s, pos) {
            Some((m, v)) => Some((m, Some(v))),
            None => Some((pos, None)),
        }
    }

    fn parse(&self, source: &str, pos: usize) -> (r: Option<(usize, Option<P::Output>)>) {
        proof {
            assert(!self.consumes());
        }
        match self.0.parse(source, pos) {
            Some((m, v)) => {
                let ghost dv = v.deep_view();
                let w = Some(v);
                proof {
                    assert(w.deep_view() == Some(dv));
                }
                Some((m, w))
            },
            None => {
                let w: Option<P::Output> = None;
                proof {
                    assert(w.deep_view() == Option::<<P::Output as DeepView>::V>::None);
                }
                Some((pos, w))
            },
        }
    }
}

/// What repetition accumulates: the values of successive matches of `p`, in
/// encounter order, until it signals no match. A success that consumed
/// nothing would repeat forever, so the recursion stops there; `ZeroOrMore`
/// requires of its inner parser that this never happens.
pub open spec fn spec_zero_or_more<P: Parser>(p: P, s: Seq<char>, pos: int) -> (
    int,
    Seq<<P::Output as DeepView>::V>,
)
    decreases s.len() - pos,
{
    if 0 <= pos <= s.len() {
        match p.spec_parse(s, pos) {
            Some((m, v)) => if pos < m <= s.len() {
                let (e, rest) = spec_zero_or_more(p, s, m);
                (e, seq![v] + rest)
            } else {
                (pos, Seq::empty())
            },
            None => (pos, Seq::empty()),
        }
    } else {
        (pos, Seq::empty())
    }
}

/// Repetition: apply the inner parser until it signals no match, accumulating
/// the values in encounter order. Always succeeds, possibly with an empty
/// list. The inner parser must consume on every success, or repetition would
/// never terminate.
pub struct ZeroOrMore<P>(pub P);

impl<P: Parser> ZeroOrMore<P> {
    /// Wraps the parser to be repeated.
    pub fn new(parser: P) -> (r: Self)
        ensures
            r.0 == parser,
    {
        ZeroOrMore(parser)
    }
}

impl<P: Parser> Parser for ZeroOrMore<P> {
    type Output = Vec<P::Output>;

    open spec fn wf(&self) -> bool {
        self.0.wf() && self.0.consumes()
    }

    open spec fn consumes(&self) -> bool {
        false
    }

    open spec fn spec_parse(&self, s: Seq<char>, pos: int) -> Option<
        (int, Seq<<P::Output as DeepView>::V>),
    > {
        Some(spec_zero_or_more(self.0, s, pos))
    }

    fn parse(&self, source: &str, pos: usize) -> (r: Option<(usize, Vec<P::Output>)>)
        decreases source@.len() - pos,
    {
        proof {
            assert(!self.consumes());
        }
        match self.0.parse(source, pos) {
            Some((m, v)) => match self.parse(source, m) {
                Some((e, mut rest)) => {
                    let ghost r0 = rest.deep_view();
                    let ghost dv = v.deep_view();
                    rest.insert(0, v);
                    proof {
                        assert(rest.deep_view() =~= seq![dv] + r0);
                    }
                    Some((e, rest))
                },
                None => {
                    proof {
                        assert(false);
                    }
                    None
                },
            },
            None => {
                let w: Vec<P::Output> = Vec::new();
                proof {
                    assert(w.deep_view() =~= Seq::<<P::Output as DeepView>::V>::empty());
                }
                Some((pos, w))
            },
        }
    }
}

/// Matches a maximal run of one or more whitespace characters; the parser
/// value of the whitespace recognizer.
pub struct Whitespace;

impl Parser for Whitespace {
    type Output = ();

    open spec fn wf(&self) -> bool {
        true
    }

    open spec fn consumes(&self) -> bool {
        true
    }

    open spec fn spec_parse(&self, s: Seq<char>, pos: int) -> Option<(int, ())> {
        match spec_whitespace(s, pos) {
            Some(p) => Some((p, ())),
            None => None,
        }
    }

    fn parse(&self, source: &str, pos: usize) -> (r: Option<(usize, ())>) {
        proof {
            assert(self.consumes());
        }
        match crate::parser::whitespace(source, pos) {
            Some(p) => Some((p, ())),
            None => None,
        }
    }
}

/// Matches a line comment; the parser value of the line-comment recognizer.
pub struct SingleLineComment;

impl Parser for SingleLineComment {
    type Output = ();

    open spec fn wf(&self) -> bool {
        true
    }

    open spec fn consumes(&self) -> bool {
        true
    }

    open spec fn spec_parse(&self, s: Seq<char>, pos: int) -> Option<(int, ())> {
        match spec_single_line_comment(s, pos) {
            Some(p) => Some((p, ())),
            None => None,
        }
    }

    fn parse(&self, source: &str, pos: usize) -> (r: Option<(usize, ())>) {
        proof {
            assert(self.consumes());
        }
        match crate::parser::single_line_comment(source, pos) {
            Some(p) => Some((p, ())),
            None => None,
        }
    }
}

/// Matches a block comment; the parser value of the block-comment recognizer.
pub struct MultiLineComment;

impl Parser for MultiLineComment {
    type Output = ();

    open spec fn wf(&self) -> bool {
        true
    }

    open spec fn consumes(&self) -> bool {
        true
    }

    open spec fn spec_parse(&self, s: Seq<char>, pos: int) -> Option<(int, ())> {
        match spec_multi_line_comment(s, pos) {
            Some(p) => Some((p, ())),
            None => None,
        }
    }

    fn parse(&self, source: &str, pos: usize) -> (r: Option<(usize, ())>) {
        proof {
            assert(self.consumes());
        }
        match crate::parser::multi_line_comment(source, pos) {
            Some(p) => Some((p, ())),
            None => None,
        }
    }
}


/// The ignored-content recognizer of the lexical layer is exactly the
/// repetition "zero or more of (whitespace or comment)" of this algebra: both
/// consume the same ignorable content at every position.
pub proof fn lemma_ignored_is_repetition(s: Seq<char>, pos: int)
    requires
        0 <= pos <= s.len(),
    ensures
        spec_zero_or_more(
            Choice(Whitespace, Choice(SingleLineComment, MultiLineComment)),
            s,
            pos,
        ).0 == ignored_end(s, pos),
    decreases s.len() - pos,
{
    let p = Choice(Whitespace, Choice(SingleLineComment, MultiLineComment));
    assert(p.spec_parse(s, pos) == (match spec_ws_or_comment(s, pos) {
        Some(m) => Some((m, ())),
        None => None::<(int, ())>,
    }));
    match spec_ws_or_comment(s, pos) {
        Some(m) => {
            if pos < m <= s.len() {
                lemma_ignored_is_repetition(s, m);
            }
        },
        None => {},
    }
}

} // verus!
