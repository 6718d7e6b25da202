//! The trace filter: which frames it selects, and which page of them.

use vstd::prelude::*;
use alloy_rpc_types_trace::filter as rpc;
use alloy_rpc_types_trace::filter::TraceFilterMatcher;
use alloy_rpc_types_trace::parity;
use crate::parity::{
    Action, ActionView, LocalizedTraceView, LocalizedTransactionTrace, TraceOutput,
    TraceOutputView, TransactionTrace, TransactionTraceView, localized_views,
};
use crate::primitives::Address;

verus! {

/// How the two address lists of a filter combine.
#[derive(Clone, Copy, Debug, PartialEq, Eq)]
pub enum TraceFilterMode {
    /// A frame passes if its sender or its recipient is listed.
    Union,
    /// A frame passes only if its sender and its recipient are listed.
    Intersection,
}

/// A request for the frames of a block range that touch given addresses.
#[derive(Clone, Debug, PartialEq, Eq)]
pub struct TraceFilter {
    /// First block of the range; the genesis block if absent.
    pub from_block: Option<u64>,
    /// Last block of the range, inclusive; the latest block if absent.
    pub to_block: Option<u64>,
    /// Senders to select; empty selects every sender.
    pub from_address: Vec<Address>,
    /// Recipients to select; empty selects every recipient.
    pub to_address: Vec<Address>,
    pub mode: TraceFilterMode,
    /// How many selected frames to skip.
    pub after: Option<u64>,
    /// How many selected frames to return at most.
    pub count: Option<u64>,
}

pub struct TraceFilterView {
    pub from_block: Option<u64>,
    pub to_block: Option<u64>,
    pub from_address: Seq<Address>,
    pub to_address: Seq<Address>,
    pub mode: TraceFilterMode,
    pub after: Option<u64>,
    pub count: Option<u64>,
}

impl View for TraceFilter {
    type V = TraceFilterView;

    open spec fn view(&self) -> TraceFilterView {
        TraceFilterView {
            from_block: self.from_block,
            to_block: self.to_block,
            from_address: self.from_address@,
            to_address: self.to_address@,
            mode: self.mode,
            after: self.after,
            count: self.count,
        }
    }
}

/// What a matcher reads of a frame: the kind of its action and the
/// addresses on either side of it.
#[derive(Clone, Copy, Debug, PartialEq, Eq)]
pub enum MatchSubject {
    Call { from: Address, to: Address },
    /// `created` is the new contract's address, known once the creation
    /// has succeeded.
    Create { from: Address, created: Option<Address> },
    Selfdestruct { address: Address, refund_address: Address },
    Reward { author: Address },
}

/// The subject of a frame.
pub open spec fn subject_of(trace: TransactionTraceView) -> MatchSubject {
    match trace.action {
        ActionView::Call(a) => MatchSubject::Call { from: a.from, to: a.to },
        ActionView::Create(a) => MatchSubject::Create {
            from: a.from,
            created: match trace.result {
                Some(TraceOutputView::Create(o)) => Some(o.address),
                _ => None,
            },
        },
        ActionView::Selfdestruct(a) => MatchSubject::Selfdestruct {
            address: a.address,
            refund_address: a.refund_address,
        },
        ActionView::Reward(a) => MatchSubject::Reward { author: a.author },
    }
}

/// A compiled filter: its mode and its two address sets.
pub struct MatcherView {
    pub mode: TraceFilterMode,
    pub from: Set<Address>,
    pub to: Set<Address>,
}

/// The matcher that a filter compiles to.
pub open spec fn matcher_of(filter: TraceFilterView) -> MatcherView {
    MatcherView {
        mode: filter.mode,
        from: filter.from_address.to_set(),
        to: filter.to_address.to_set(),
    }
}

/// Whether a set selects nothing in particular, and so everything.
pub open spec fn selects_all(set: Set<Address>) -> bool {
    forall|a: Address| !set.contains(a)
}

/// Whether one side of a matcher accepts an address.
pub open spec fn side_accepts(set: Set<Address>, addr: Address) -> bool {
    selects_all(set) || set.contains(addr)
}

/// Whether the sender side of a matcher accepts a subject. A reward has
/// no sender: only a matcher that selects every sender accepts it.
pub open spec fn from_accepts(m: MatcherView, s: MatchSubject) -> bool {
    match s {
        MatchSubject::Call { from, .. } => side_accepts(m.from, from),
        MatchSubject::Create { from, .. } => side_accepts(m.from, from),
        MatchSubject::Selfdestruct { address, .. } => side_accepts(m.from, address),
        MatchSubject::Reward { .. } => selects_all(m.from),
    }
}

/// Whether the recipient side of a matcher accepts a subject. A creation
/// that left no contract has no recipient: only a matcher that selects
/// every recipient accepts it.
pub open spec fn to_accepts(m: MatcherView, s: MatchSubject) -> bool {
    match s {
        MatchSubject::Call { to, .. } => side_accepts(m.to, to),
        MatchSubject::Create { created, .. } => match created {
            Some(address) => side_accepts(m.to, address),
            None => selects_all(m.to),
        },
        MatchSubject::Selfdestruct { refund_address, .. } => side_accepts(m.to, refund_address),
        MatchSubject::Reward { author } => side_accepts(m.to, author),
    }
}

/// Whether a matcher accepts a subject. In union mode a side that
/// selects everything is left out of the decision, unless both do.
pub open spec fn subject_matches(m: MatcherView, s: MatchSubject) -> bool {
    match m.mode {
        TraceFilterMode::Union => {
            if selects_all(m.from) {
                to_accepts(m, s)
            } else if selects_all(m.to) {
                from_accepts(m, s)
            } else {
                from_accepts(m, s) || to_accepts(m, s)
            }
        },
        TraceFilterMode::Intersection => from_accepts(m, s) && to_accepts(m, s),
    }
}

/// Whether a matcher accepts a frame.
pub open spec fn trace_matches(m: MatcherView, trace: TransactionTraceView) -> bool {
    subject_matches(m, subject_of(trace))
}

/// The frames that a matcher accepts, as a predicate on localized frames.
pub open spec fn accepted_by(m: MatcherView) -> spec_fn(LocalizedTraceView) -> bool {
    |t: LocalizedTraceView| trace_matches(m, t.trace)
}

/// `alloy_rpc_types_trace::filter::TraceFilterMatcher`: two address sets
/// and a mode, of which only the three functions below speak.
#[verifier::external_type_specification]
#[verifier::external_body]
pub struct ExTraceFilterMatcher(alloy_rpc_types_trace::filter::TraceFilterMatcher);

/// The sender addresses that an outside matcher holds.
pub uninterp spec fn matcher_from(m: TraceFilterMatcher) -> Set<Address>;

/// The recipient addresses that an outside matcher holds.
pub uninterp spec fn matcher_to(m: TraceFilterMatcher) -> Set<Address>;

/// Whether an outside matcher is in union mode.
pub uninterp spec fn matcher_is_union(m: TraceFilterMatcher) -> bool;

/// What an outside matcher holds.
pub open spec fn matcher_view(m: TraceFilterMatcher) -> MatcherView {
    MatcherView {
        mode: if matcher_is_union(m) {
            TraceFilterMode::Union
        } else {
            TraceFilterMode::Intersection
        },
        from: matcher_from(m),
        to: matcher_to(m),
    }
}

/// `alloy_rpc_types_trace::filter::TraceFilter::matcher`, on a filter with
/// the two address lists and the mode of `filter`: the outside function
/// collects each list into a set and keeps the mode.
#[verifier::external_body]
fn build_matcher(filter: &TraceFilter) -> (r: TraceFilterMatcher)
    ensures
        matcher_from(r) == filter@.from_address.to_set(),
        matcher_to(r) == filter@.to_address.to_set(),
        matcher_is_union(r) == (filter@.mode == TraceFilterMode::Union),
{
    rpc::TraceFilter {
        from_address: filter.from_address.iter().map(|a| a.bytes.into()).collect(),
        to_address: filter.to_address.iter().map(|a| a.bytes.into()).collect(),
        mode: match filter.mode {
            TraceFilterMode::Union => rpc::TraceFilterMode::Union,
            TraceFilterMode::Intersection => rpc::TraceFilterMode::Intersection,
        },
        ..Default::default()
    }.matcher()
}

/// `alloy_rpc_types_trace::filter::TraceFilterMatcher::matches`, on a call
/// frame from `from` to `to`. The outside function tests the caller
/// against its sender set and the callee against its recipient set, where
/// an empty set accepts every address, and combines the two by its mode.
#[verifier::external_body]
fn matches_call(matcher: &TraceFilterMatcher, from: Address, to: Address) -> (r: bool)
    ensures
        r == subject_matches(matcher_view(*matcher), MatchSubject::Call { from, to }),
{
    let action = parity::Action::Call(
        parity::CallAction { from: from.bytes.into(), to: to.bytes.into(), ..Default::default() },
    );
    matcher.matches(&parity::TransactionTrace { action, ..Default::default() })
}

/// `alloy_rpc_types_trace::filter::TraceFilterMatcher::matches`, on a
/// creation frame by `from` whose result is the contract at `created`, or
/// is absent. The outside function tests the creator against its sender
/// set and the new contract against its recipient set; with no contract,
/// the recipient side passes only where the recipient set is empty.
#[verifier::external_body]
fn matches_create(
    matcher: &TraceFilterMatcher,
    from: Address,
    created: Option<Address>,
) -> (r: bool)
    ensures
        r == subject_matches(matcher_view(*matcher), MatchSubject::Create { from, created }),
{
    let action = parity::Action::Create(
        parity::CreateAction { from: from.bytes.into(), ..Default::default() },
    );
    let result = created.map(
        |a| parity::TraceOutput::Create(
            parity::CreateOutput { address: a.bytes.into(), code: Default::default(), gas_used: 0 },
        ),
    );
    matcher.matches(&parity::TransactionTrace { action, result, ..Default::default() })
}

/// `alloy_rpc_types_trace::filter::TraceFilterMatcher::matches`, on the
/// self-destruction of `address` in favour of `refund_address`. The
/// outside function tests the destroyed contract against its sender set
/// and the refunded account against its recipient set.
#[verifier::external_body]
fn matches_selfdestruct(
    matcher: &TraceFilterMatcher,
    address: Address,
    refund_address: Address,
) -> (r: bool)
    ensures
        r == subject_matches(
            matcher_view(*matcher),
            MatchSubject::Selfdestruct { address, refund_address },
        ),
{
    let action = parity::Action::Selfdestruct(
        parity::SelfdestructAction {
            address: address.bytes.into(),
            refund_address: refund_address.bytes.into(),
            balance: Default::default(),
        },
    );
    matcher.matches(&parity::TransactionTrace { action, ..Default::default() })
}

/// `alloy_rpc_types_trace::filter::TraceFilterMatcher::matches`, on a
/// reward paid to `author`. The outside function tests the author against
/// its recipient set; the sender side passes only where the sender set is
/// empty.
#[verifier::external_body]
fn matches_reward(matcher: &TraceFilterMatcher, author: Address) -> (r: bool)
    ensures
        r == subject_matches(matcher_view(*matcher), MatchSubject::Reward { author }),
{
    let action = parity::Action::Reward(
        parity::RewardAction {
            author: author.bytes.into(),
            reward_type: parity::RewardType::Block,
            value: Default::default(),
        },
    );
    matcher.matches(&parity::TransactionTrace { action, ..Default::default() })
}

/// A filter compiled for matching: built once, used on every frame.
pub struct Matcher {
    inner: TraceFilterMatcher,
}

impl View for Matcher {
    type V = MatcherView;

    closed spec fn view(&self) -> MatcherView {
        matcher_view(self.inner)
    }
}

impl TraceFilter {
    /// Compiles the filter's address lists into a matcher.
    pub fn matcher(&self) -> (r: Matcher)
        ensures
            r@ == matcher_of(self@),
    {
        Matcher { inner: build_matcher(self) }
    }
}

impl TransactionTrace {
    /// What a matcher reads of this frame.
    pub fn subject(&self) -> (r: MatchSubject)
        ensures
            r == subject_of(self@),
    {
        match &self.action {
            Action::Call(a) => MatchSubject::Call { from: a.from, to: a.to },
            Action::Create(a) => {
                let created = match &self.result {
                    Some(TraceOutput::Create(o)) => Some(o.address),
                    _ => None,
                };
                MatchSubject::Create { from: a.from, created }
            },
            Action::Selfdestruct(a) => MatchSubject::Selfdestruct {
                address: a.address,
                refund_address: a.refund_address,
            },
            Action::Reward(a) => MatchSubject::Reward { author: a.author },
        }
    }
}

impl Matcher {
    /// Whether the matcher accepts `trace`.
    pub fn matches(&self, trace: &TransactionTrace) -> (r: bool)
        ensures
            r == trace_matches(self@, trace@),
    {
        match trace.subject() {
            MatchSubject::Call { from, to } => matches_call(&self.inner, from, to),
            MatchSubject::Create { from, created } => matches_create(&self.inner, from, created),
            MatchSubject::Selfdestruct { address, refund_address } => matches_selfdestruct(
                &self.inner,
                address,
                refund_address,
            ),
            MatchSubject::Reward { author } => matches_reward(&self.inner, author),
        }
    }

    /// Keeps the frames that the matcher accepts, in their order.
    pub fn retain(&self, traces: Vec<LocalizedTransactionTrace>) -> (r: Vec<
        LocalizedTransactionTrace,
    >)
        ensures
            localized_views(r@) == localized_views(traces@).filter(accepted_by(self@)),
    {
        let ghost input = traces@;
        let ghost views = localized_views(input);
        let mut out: Vec<LocalizedTransactionTrace> = Vec::new();
        proof {
            reveal(Seq::filter);
            assert(views.take(0).filter(accepted_by(self@)) =~= Seq::<LocalizedTraceView>::empty());
            assert(localized_views(out@) =~= Seq::<LocalizedTraceView>::empty());
        }
        for trace in it: traces
            invariant
                it.seq() == input,
                views == localized_views(input),
                localized_views(out@) == views.take(it.index() as int).filter(accepted_by(self@)),
        {
            proof {
                let k = it.index() as int;
                assert(views.take(k + 1) =~= views.take(k).push(views[k]));
                views.take(k).lemma_filter_push(views[k], accepted_by(self@));
                assert(localized_views(out@.push(trace)) =~= localized_views(out@).push(trace@));
            }
            if self.matches(&trace.trace) {
                out.push(trace);
            }
        }
        assert(views.take(views.len() as int) =~= views);
        out
    }
}

/// The page of `all` that starts after `after` items and holds at most
/// `count`: empty where `after` reaches the end.
pub open spec fn paginate_spec<T>(all: Seq<T>, after: Option<u64>, count: Option<u64>) -> Seq<T> {
    let rest = match after {
        Some(a) => if a < all.len() {
            all.skip(a as int)
        } else {
            Seq::empty()
        },
        None => all,
    };
    match count {
        Some(c) => if c < rest.len() {
            rest.take(c as int)
        } else {
            rest
        },
        None => rest,
    }
}

/// How many items the page holds: what is left after the skipped ones,
/// capped by `count`.
pub open spec fn page_len(total: nat, after: Option<u64>, count: Option<u64>) -> nat {
    let skip: nat = match after {
        Some(a) => a as nat,
        None => 0,
    };
    let left: nat = if total >= skip {
        (total - skip) as nat
    } else {
        0
    };
    match count {
        Some(c) => if (c as nat) < left {
            c as nat
        } else {
            left
        },
        None => left,
    }
}

/// The page of `all` that `after` and `count` select.
pub fn paginate<T>(all: Vec<T>, after: Option<u64>, count: Option<u64>) -> (r: Vec<T>)
    ensures
        r@ == paginate_spec(all@, after, count),
        r@.len() == page_len(all@.len(), after, count),
{
    let mut all = all;
    let mut page = match after {
        Some(a) => {
            if a < all.len() as u64 {
                all.split_off(a as usize)
            } else {
                return Vec::new();
            }
        },
        None => all,
    };
    if let Some(c) = count {
        if c < page.len() as u64 {
            page.truncate(c as usize);
        }
    }
    page
}

} // verus!
