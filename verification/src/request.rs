//! The request binder: three loosely-typed call arguments are validated and
//! assembled into one extraction request, which is then fulfilled row by row.

use vstd::prelude::*;

use crate::extract::opt_view;
use crate::extract::single_regex_extract;
use crate::extract::spec_row_out;
use crate::extract::texts;
use crate::matcher::compile;
use crate::matcher::pattern_ok;

verus! {

/// Which of the three call arguments a binding call is for.
#[derive(Clone, Copy, Debug, PartialEq, Eq, Structural)]
pub enum ArgField {
    Input,
    Regex,
    Group,
}

/// One loosely-typed call argument, in the shapes the host hands over.
pub enum CallArg {
    /// A column of optional text rows.
    Batch(Vec<Option<String>>),
    /// A scalar text value, possibly null.
    TextScalar(Option<String>),
    /// A scalar integer value, possibly null.
    IntScalar(Option<i64>),
}

/// The observed shape of an argument, for reporting a binding mismatch.
#[derive(Clone, Copy, Debug, PartialEq, Eq, Structural)]
pub enum ArgShape {
    Batch,
    TextScalar,
    NullTextScalar,
    IntScalar,
    NullIntScalar,
}

/// A binding error: the named field received an argument of the wrong shape.
#[derive(Clone, Copy, Debug, PartialEq, Eq, Structural)]
pub struct BindError {
    pub field: ArgField,
    pub got: ArgShape,
}

impl CallArg {
    /// The shape of this argument.
    pub open spec fn spec_shape(&self) -> ArgShape {
        match self {
            CallArg::Batch(_) => ArgShape::Batch,
            CallArg::TextScalar(Some(_)) => ArgShape::TextScalar,
            CallArg::TextScalar(None) => ArgShape::NullTextScalar,
            CallArg::IntScalar(Some(_)) => ArgShape::IntScalar,
            CallArg::IntScalar(None) => ArgShape::NullIntScalar,
        }
    }

    /// Report the shape of this argument.
    pub fn shape(&self) -> (s: ArgShape)
        ensures
            s == self.spec_shape(),
    {
        match self {
            CallArg::Batch(_) => ArgShape::Batch,
            CallArg::TextScalar(Some(_)) => ArgShape::TextScalar,
            CallArg::TextScalar(None) => ArgShape::NullTextScalar,
            CallArg::IntScalar(Some(_)) => ArgShape::IntScalar,
            CallArg::IntScalar(None) => ArgShape::NullIntScalar,
        }
    }
}

/// One extraction request: the three call arguments, each present once its
/// binding call has accepted a value of the right shape.
pub struct RegexpExtractRequest {
    pub input: Option<Vec<Option<String>>>,
    pub regex: Option<String>,
    pub group: Option<i64>,
}

impl RegexpExtractRequest {
    /// All three fields have been bound.
    pub open spec fn spec_usable(&self) -> bool {
        self.input is Some && self.regex is Some && self.group is Some
    }

    /// Which argument shape each field accepts: a batch of optional text for
    /// the input, a non-null text scalar for the pattern, a non-null integer
    /// scalar for the group index.
    pub open spec fn spec_accepts(field: ArgField, value: CallArg) -> bool {
        match field {
            ArgField::Input => value is Batch,
            ArgField::Regex => value matches CallArg::TextScalar(Some(_)),
            ArgField::Group => value matches CallArg::IntScalar(Some(_)),
        }
    }

    /// A fresh request with no argument bound yet.
    pub fn new() -> (r: RegexpExtractRequest)
        ensures
            r.input is None,
            r.regex is None,
            r.group is None,
    {
        RegexpExtractRequest { input: None, regex: None, group: None }
    }

    /// Bind one call argument to the named field, accepting exactly the shape
    /// that field calls for; a mismatch reports the field and the shape
    /// received and leaves the request unchanged.
    pub fn set(&mut self, field: ArgField, value: CallArg) -> (r: Result<(), BindError>)
        ensures
            r is Ok <==> Self::spec_accepts(field, value),
            r is Ok ==> match field {
                ArgField::Input => *final(self) == (RegexpExtractRequest {
                    input: Some(value->Batch_0),
                    ..*old(self)
                }),
                ArgField::Regex => *final(self) == (RegexpExtractRequest {
                    regex: Some(value->TextScalar_0->0),
                    ..*old(self)
                }),
                ArgField::Group => *final(self) == (RegexpExtractRequest {
                    group: Some(value->IntScalar_0->0),
                    ..*old(self)
                }),
            },
            r is Err ==> *final(self) == *old(self),
            r matches Err(e) ==> e == (BindError { field, got: value.spec_shape() }),
    {
        match (field, value) {
            (ArgField::Input, CallArg::Batch(rows)) => {
                self.input = Some(rows);
                Ok(())
            },
            (ArgField::Regex, CallArg::TextScalar(Some(pattern))) => {
                self.regex = Some(pattern);
                Ok(())
            },
            (ArgField::Group, CallArg::IntScalar(Some(index))) => {
                self.group = Some(index);
                Ok(())
            },
            (other_field, other_value) => Err(
                BindError { field: other_field, got: other_value.shape() },
            ),
        }
    }

    /// True when all three fields are bound, so extraction may run.
    pub fn is_usable(&self) -> (r: bool)
        ensures
            r == self.spec_usable(),
    {
        self.input.is_some() && self.regex.is_some() && self.group.is_some()
    }

    /// The rows of the result, as character sequences: one row per input row
    /// when the request is usable and its pattern compiles, each the
    /// extraction of the requested group from that row's text; otherwise the
    /// single-empty-row fallback batch.
    pub open spec fn spec_result(&self) -> Seq<Seq<char>> {
        if self.spec_usable() && pattern_ok((self.regex->0)@) {
            Seq::new(
                (self.input->0)@.len(),
                |i: int|
                    spec_row_out((self.regex->0)@, opt_view((self.input->0)@[i]), self.group->0 as int),
            )
        } else {
            seq![Seq::<char>::empty()]
        }
    }

    /// Produce the result batch for this request: the pattern is compiled
    /// once, then the requested capture group is extracted from every row of
    /// the input in order, an absent row counting as empty text and every
    /// row where nothing is captured yielding the empty string. An incomplete
    /// request, and likewise a pattern the engine rejects, degrades without
    /// error to a batch of one empty row — the observable fallback this
    /// library keeps rather than padding it to the input's length. Every row
    /// of the result is a present text value: the result type leaves no room
    /// for an absent row.
    pub fn fulfill(&self) -> (out: Vec<String>)
        ensures
            texts(out@) == self.spec_result(),
    {
        match (&self.input, &self.regex, &self.group) {
            (Some(rows), Some(pattern), Some(group)) => {
                match compile(pattern.as_str()) {
                    Some(compiled) => {
                        let index: i64 = *group;
                        let representable: bool = index >= 0 && (index as u64) <= (usize::MAX
                            as u64);
                        let n: usize = rows.len();
                        let mut out: Vec<String> = Vec::new();
                        let mut i: usize = 0;
                        while i < n
                            invariant
                                n == rows@.len(),
                                i <= n,
                                out@.len() == i,
                                compiled.spec_pattern() == pattern@,
                                index == self.group->0,
                                representable <==> 0 <= index <= usize::MAX,
                                forall|j: int|
                                    0 <= j < i ==> (#[trigger] out@[j])@ == spec_row_out(
                                        pattern@,
                                        opt_view(rows@[j]),
                                        index as int,
                                    ),
                            decreases n - i,
                        {
                            let text: &str = match &rows[i] {
                                Some(present) => present.as_str(),
                                None => "",
                            };
                            proof {
                                reveal_strlit("");
                                assert(""@ =~= Seq::<char>::empty());
                            }
                            let row_out: String = if representable {
                                single_regex_extract(text, &compiled, index as usize)
                            } else {
                                String::new()
                            };
                            out.push(row_out);
                            i = i + 1;
                        }
                        proof {
                            assert(texts(out@) =~= self.spec_result());
                        }
                        out
                    },
                    None => Self::fallback_batch(),
                }
            },
            _ => Self::fallback_batch(),
        }
    }

    /// The degenerate result: a batch of one empty row.
    fn fallback_batch() -> (out: Vec<String>)
        ensures
            texts(out@) == seq![Seq::<char>::empty()],
    {
        let mut out: Vec<String> = Vec::new();
        out.push(String::new());
        proof {
            assert(texts(out@) =~= seq![Seq::<char>::empty()]);
        }
        out
    }
}

/// Law: for every usable request whose pattern the engine accepts, the result
/// batch has exactly one row per input row.
pub proof fn lemma_result_length(req: &RegexpExtractRequest)
    ensures
        req.spec_usable() && pattern_ok((req.regex->0)@) ==> req.spec_result().len() == (
        req.input->0)@.len(),
{
}

/// Law: extraction is a pure function of the request, with no hidden state:
/// any two result batches that fulfill the extraction contract for the same
/// request carry the same row texts.
pub proof fn lemma_extraction_idempotent(
    req: &RegexpExtractRequest,
    out1: Seq<String>,
    out2: Seq<String>,
)
    ensures
        texts(out1) == req.spec_result() && texts(out2) == req.spec_result() ==> texts(out1)
            == texts(out2),
{
}

} // verus!
