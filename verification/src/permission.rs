//! The fixed policy for permission requests: pick the first option that allows.

use vstd::prelude::*;

verus! {

/// What a permission option would do if it were chosen.
#[derive(Clone, Copy, Debug, PartialEq, Eq, Structural)]
pub enum PermissionOptionKind {
    /// Allow the operation this one time.
    AllowOnce,
    /// Allow the operation and remember the choice.
    AllowAlways,
    /// Reject the operation this one time.
    RejectOnce,
    /// Reject the operation and remember the choice.
    RejectAlways,
    /// A kind this library does not know; it is never chosen.
    Other,
}

impl PermissionOptionKind {
    /// Whether an option of this kind grants the request.
    pub open spec fn allows(self) -> bool {
        self == PermissionOptionKind::AllowOnce || self == PermissionOptionKind::AllowAlways
    }

    /// Whether an option of this kind grants the request.
    pub fn is_allow(&self) -> (r: bool)
        ensures
            r == self.allows(),
    {
        match self {
            PermissionOptionKind::AllowOnce => true,
            PermissionOptionKind::AllowAlways => true,
            PermissionOptionKind::RejectOnce => false,
            PermissionOptionKind::RejectAlways => false,
            PermissionOptionKind::Other => false,
        }
    }
}

/// One option offered by a permission request.
#[derive(Debug)]
pub struct PermissionOption {
    /// Identifier to send back when this option is chosen.
    pub option_id: String,
    /// What choosing this option would do.
    pub kind: PermissionOptionKind,
}

/// The mathematical value of a [`PermissionOption`].
pub struct PermissionOptionView {
    pub option_id: Seq<char>,
    pub kind: PermissionOptionKind,
}

impl View for PermissionOption {
    type V = PermissionOptionView;

    open spec fn view(&self) -> PermissionOptionView {
        PermissionOptionView { option_id: self.option_id@, kind: self.kind }
    }
}

impl DeepView for PermissionOption {
    type V = PermissionOptionView;

    open spec fn deep_view(&self) -> PermissionOptionView {
        self@
    }
}

impl PermissionOption {
    /// An option with the given identifier and kind.
    pub fn new(option_id: &str, kind: PermissionOptionKind) -> (r: PermissionOption)
        ensures
            r@ == (PermissionOptionView { option_id: option_id@, kind }),
    {
        PermissionOption { option_id: option_id.to_owned(), kind }
    }
}

/// The answer given to a permission request.
#[derive(Debug)]
pub enum PermissionOutcome {
    /// The option with this identifier was chosen.
    Selected(String),
    /// No option was chosen; the request is cancelled.
    Cancelled,
}

/// The mathematical value of a [`PermissionOutcome`].
pub enum PermissionOutcomeView {
    Selected(Seq<char>),
    Cancelled,
}

impl View for PermissionOutcome {
    type V = PermissionOutcomeView;

    open spec fn view(&self) -> PermissionOutcomeView {
        match self {
            PermissionOutcome::Selected(id) => PermissionOutcomeView::Selected(id@),
            PermissionOutcome::Cancelled => PermissionOutcomeView::Cancelled,
        }
    }
}

impl PermissionOutcome {
    /// Whether an option was chosen.
    pub fn is_selected(&self) -> (r: bool)
        ensures
            r == (self@ is Selected),
    {
        match self {
            PermissionOutcome::Selected(_) => true,
            PermissionOutcome::Cancelled => false,
        }
    }

    /// The identifier of the chosen option, if one was chosen.
    pub fn selected_id(&self) -> (r: Option<&String>)
        ensures
            match r {
                Some(id) => self@ == PermissionOutcomeView::Selected(id@),
                None => self@ == PermissionOutcomeView::Cancelled,
            },
    {
        match self {
            PermissionOutcome::Selected(id) => Some(id),
            PermissionOutcome::Cancelled => None,
        }
    }
}

/// The policy: the identifier of the first option that allows, and
/// cancellation when no option does.
pub open spec fn decide(options: Seq<PermissionOptionView>) -> PermissionOutcomeView
    decreases options.len(),
{
    if options.len() == 0 {
        PermissionOutcomeView::Cancelled
    } else if options[0].kind.allows() {
        PermissionOutcomeView::Selected(options[0].option_id)
    } else {
        decide(options.drop_first())
    }
}

/// Whether `i` is the position of the first allowing option of `options`.
pub open spec fn is_first_allow(options: Seq<PermissionOptionView>, i: int) -> bool {
    &&& 0 <= i < options.len()
    &&& options[i].kind.allows()
    &&& forall|j: int| 0 <= j < i ==> !(#[trigger] options[j]).kind.allows()
}

/// Whether no option of `options` allows.
pub open spec fn none_allows(options: Seq<PermissionOptionView>) -> bool {
    forall|j: int| 0 <= j < options.len() ==> !(#[trigger] options[j]).kind.allows()
}

/// The policy selects exactly the first allowing option: whenever `i` is its
/// position, the outcome is the selection of that option's identifier.
pub proof fn lemma_decide_selects_first_allow(options: Seq<PermissionOptionView>, i: int)
    requires
        is_first_allow(options, i),
    ensures
        decide(options) == PermissionOutcomeView::Selected(options[i].option_id),
    decreases options.len(),
{
    if i > 0 {
        let rest = options.drop_first();
        assert(!options[0].kind.allows());
        assert forall|j: int| 0 <= j < i - 1 implies !(#[trigger] rest[j]).kind.allows() by {
            assert(rest[j] == options[j + 1]);
        }
        assert(rest[i - 1] == options[i]);
        lemma_decide_selects_first_allow(rest, i - 1);
    }
}

/// The policy cancels exactly when no offered option allows, so an option
/// that rejects, or whose kind is unknown, is never chosen.
pub proof fn lemma_decide_cancels_iff_none_allows(options: Seq<PermissionOptionView>)
    ensures
        decide(options) is Cancelled <==> none_allows(options),
        decide(options) is Selected ==> exists|i: int|
            is_first_allow(options, i) && decide(options) == PermissionOutcomeView::Selected(
                (#[trigger] options[i]).option_id,
            ),
    decreases options.len(),
{
    if options.len() == 0 {
    } else if options[0].kind.allows() {
        assert(is_first_allow(options, 0));
    } else {
        let rest = options.drop_first();
        lemma_decide_cancels_iff_none_allows(rest);
        if none_allows(rest) {
            assert forall|j: int| 0 <= j < options.len() implies !(#[trigger] options[j]).kind.allows() by {
                if j > 0 {
                    assert(rest[j - 1] == options[j]);
                }
            }
        } else {
            let j = choose|j: int| 0 <= j < rest.len() && (#[trigger] rest[j]).kind.allows();
            assert(rest[j] == options[j + 1]);
            assert(options[j + 1].kind.allows());
        }
        if decide(rest) is Selected {
            let i = choose|i: int|
                is_first_allow(rest, i) && decide(rest) == PermissionOutcomeView::Selected(
                    (#[trigger] rest[i]).option_id,
                );
            assert(rest[i] == options[i + 1]);
            assert forall|j: int| 0 <= j < i + 1 implies !(#[trigger] options[j]).kind.allows() by {
                if j > 0 {
                    assert(rest[j - 1] == options[j]);
                }
            }
            assert(is_first_allow(options, i + 1));
        }
    }
}

/// Answers a permission request: selects the first offered option whose kind
/// allows, once or always, and cancels when there is none.
pub fn select_permission_outcome(options: &Vec<PermissionOption>) -> (r: PermissionOutcome)
    ensures
        r@ == decide(options.deep_view()),
{
    let ghost all = options.deep_view();
    let mut i: usize = 0;
    while i < options.len()
        invariant
            i <= options.len(),
            all == options.deep_view(),
            all.len() == options.len(),
            forall|j: int| 0 <= j < i ==> !(#[trigger] all[j]).kind.allows(),
        decreases options.len() - i,
    {
        assert(all[i as int] == options[i as int]@);
        if options[i].kind.is_allow() {
            let id = options[i].option_id.clone();
            proof {
                assert(is_first_allow(all, i as int));
                lemma_decide_selects_first_allow(all, i as int);
            }
            return PermissionOutcome::Selected(id);
        }
        i += 1;
    }
    proof {
        assert(none_allows(all));
        lemma_decide_cancels_iff_none_allows(all);
    }
    PermissionOutcome::Cancelled
}

} // verus!
