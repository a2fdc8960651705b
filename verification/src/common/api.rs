//! Address validation and the generic errors the host reports.
//!
//! The chain validates addresses (bech32 decoding, prefix, normalization);
//! a contract asks it through the host API. The library takes the chain's
//! verdicts as data: an [`Api`] lists, for each address string a message
//! names, whether the chain accepted it and, if not, the error it gave.
//! A valid address is the string itself.

use vstd::prelude::*;

verus! {

/// The generic error of the contract framework, as far as these contracts
/// raise it: a rejected input or a missing stored entry.
#[derive(Debug, Clone, PartialEq, Eq)]
pub enum StdError {
    GenericErr { msg: String },
    NotFound { kind: String },
}

pub enum StdErrorView {
    GenericErr { msg: Seq<char> },
    NotFound { kind: Seq<char> },
}

impl View for StdError {
    type V = StdErrorView;

    open spec fn view(&self) -> StdErrorView {
        match self {
            StdError::GenericErr { msg } => StdErrorView::GenericErr { msg: msg@ },
            StdError::NotFound { kind } => StdErrorView::NotFound { kind: kind@ },
        }
    }
}

/// The text of a framework error.
pub open spec fn std_error_text(e: StdErrorView) -> Seq<char> {
    match e {
        StdErrorView::GenericErr { msg } => "Generic error: "@ + msg,
        StdErrorView::NotFound { kind } => kind + " not found"@,
    }
}

/// The text of a framework error.
pub fn std_error_message(e: &StdError) -> (r: String)
    ensures
        r@ == std_error_text(e@),
{
    match e {
        StdError::GenericErr { msg } => String::from_str("Generic error: ").concat(msg.as_str()),
        StdError::NotFound { kind } => kind.clone().concat(" not found"),
    }
}

/// `r` is the result `o` describes.
pub open spec fn std_result_matches<T: View>(r: Result<T, StdError>, o: Result<T::V, StdErrorView>) -> bool {
    match o {
        Ok(v) => r is Ok && r->Ok_0@ == v,
        Err(e) => r is Err && r->Err_0@ == e,
    }
}

/// The text of the error for an address the caller did not have validated.
pub open spec fn unchecked_address_msg() -> Seq<char> {
    "Invalid input: address was not validated"@
}

/// The chain's verdict on one address string: `error` is `None` when the
/// string is a valid, normalized address.
#[derive(Debug, Clone, PartialEq, Eq)]
pub struct AddrVerdict {
    pub input: String,
    pub error: Option<String>,
}

/// The chain's verdicts on the address strings of one message.
#[derive(Debug, Clone, PartialEq, Eq)]
pub struct Api {
    pub verdicts: Vec<AddrVerdict>,
}

impl View for Api {
    type V = Seq<(Seq<char>, Option<Seq<char>>)>;

    open spec fn view(&self) -> Seq<(Seq<char>, Option<Seq<char>>)> {
        Seq::new(
            self.verdicts@.len(),
            |i: int| (self.verdicts@[i].input@, self.verdicts@[i].error.deep_view()),
        )
    }
}

/// The first verdict given on `s`, if any.
pub open spec fn verdict_for(vs: Seq<(Seq<char>, Option<Seq<char>>)>, s: Seq<char>) -> Option<
    Option<Seq<char>>,
>
    decreases vs.len(),
{
    if vs.len() == 0 {
        None
    } else if vs[0].0 == s {
        Some(vs[0].1)
    } else {
        verdict_for(vs.drop_first(), s)
    }
}

/// What validating `s` gives: the address itself, or the error.
pub open spec fn addr_check(api: Seq<(Seq<char>, Option<Seq<char>>)>, s: Seq<char>) -> Result<
    Seq<char>,
    StdErrorView,
> {
    match verdict_for(api, s) {
        Some(None) => Ok(s),
        Some(Some(e)) => Err(StdErrorView::GenericErr { msg: e }),
        None => Err(StdErrorView::GenericErr { msg: unchecked_address_msg() }),
    }
}

impl Api {
    /// An empty list of verdicts.
    pub fn new() -> (r: Api)
        ensures
            r@ == Seq::<(Seq<char>, Option<Seq<char>>)>::empty(),
    {
        let r = Api { verdicts: Vec::new() };
        assert(r@ =~= Seq::<(Seq<char>, Option<Seq<char>>)>::empty());
        r
    }

    /// Records the chain's verdict on `input`.
    pub fn record(&mut self, input: String, error: Option<String>)
        ensures
            final(self)@ == old(self)@.push((input@, error.deep_view())),
    {
        self.verdicts.push(AddrVerdict { input, error });
        assert(self@ =~= old(self)@.push((input@, error.deep_view())));
    }

    /// Validates `input` as an address: the address itself when the chain
    /// accepted it, its error otherwise.
    pub fn addr_validate(&self, input: &String) -> (r: Result<String, StdError>)
        ensures
            match addr_check(self@, input@) {
                Ok(a) => r is Ok && r->Ok_0@ == a,
                Err(e) => r is Err && r->Err_0@ == e,
            },
    {
        let mut i: usize = 0;
        assert(self@.skip(0) =~= self@);
        while i < self.verdicts.len()
            invariant
                i <= self.verdicts.len(),
                verdict_for(self@, input@) == verdict_for(self@.skip(i as int), input@),
            decreases self.verdicts.len() - i,
        {
            let ghost rest = self@.skip(i as int);
            assert(rest[0] == self@[i as int]);
            assert(rest.drop_first() =~= self@.skip(i + 1));
            if self.verdicts[i].input == *input {
                return match &self.verdicts[i].error {
                    None => Ok(input.clone()),
                    Some(e) => Err(StdError::GenericErr { msg: e.clone() }),
                };
            }
            i = i + 1;
        }
        Err(StdError::GenericErr { msg: String::from_str("Invalid input: address was not validated") })
    }
}

/// The strings of an optional address, as a list.
pub open spec fn opt_list(a: Option<String>) -> Seq<Seq<char>> {
    match a {
        Some(s) => seq![s@],
        None => seq![],
    }
}

/// The address of an optional address field, as a list.
pub fn opt_addresses(a: &Option<String>) -> (r: Vec<String>)
    ensures
        r.deep_view() == opt_list(*a),
{
    let mut r: Vec<String> = Vec::new();
    match a {
        Some(s) => {
            r.push(s.clone());
        },
        None => {},
    }
    assert(r.deep_view() =~= opt_list(*a));
    r
}

/// A single address, as a list.
pub fn one_address(s: &String) -> (r: Vec<String>)
    ensures
        r.deep_view() == seq![s@],
{
    let mut r: Vec<String> = Vec::new();
    r.push(s.clone());
    assert(r.deep_view() =~= seq![s@]);
    r
}

/// Two addresses, as a list.
pub fn two_addresses(a: &String, b: &String) -> (r: Vec<String>)
    ensures
        r.deep_view() == seq![a@, b@],
{
    let x = a.clone();
    let y = b.clone();
    let mut r: Vec<String> = Vec::new();
    r.push(x);
    r.push(y);
    assert(r@ =~= seq![x, y]);
    assert(r.deep_view() =~= seq![a@, b@]);
    r
}

} // verus!
