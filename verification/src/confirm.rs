//! The engine's side of the confirmation collaborator: the data of one
//! yes/no question, and the short-circuit that skips asking altogether
//! when confirmation has been switched off.
use vstd::prelude::*;

verus! {

/// One yes/no question for the confirmation collaborator.
#[derive(Debug)]
pub struct ConfirmProps {
    /// The question itself.
    pub message: String,
    /// The answer preselected when the user just confirms the prompt.
    pub default: Option<bool>,
    /// An optional help line shown under the prompt.
    pub help: Option<String>,
}

impl Default for ConfirmProps {
    /// An empty question with no preset answer and no help line.
    fn default() -> (r: ConfirmProps)
        ensures
            r.message@ == Seq::<char>::empty(),
            r.default is None,
            r.help is None,
    {
        ConfirmProps { message: String::new(), default: None, help: None }
    }
}

/// Decides whether a question must be put to the user at all: with
/// confirmation switched off every question is answered yes on the spot,
/// otherwise no answer is given here and the caller must ask.
pub fn confirm(props: &ConfirmProps, no_confirm: bool) -> (r: Option<bool>)
    ensures
        no_confirm ==> r == Some(true),
        !no_confirm ==> r is None,
{
    if no_confirm {
        Some(true)
    } else {
        None
    }
}

} // verus!
