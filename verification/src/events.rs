//! The events that the tracker emits, and the four ordered lists that hold
//! them.

use crate::amount::Amount;
use vstd::prelude::*;

verus! {

/// Tokens moved from one account to another.
#[derive(Clone, Debug, PartialEq, Eq)]
pub struct Transfer {
    pub trx_hash: String,
    pub timestamp: i64,
    pub from: String,
    pub to: String,
    pub amount: Amount,
}

/// New tokens minted to an account.
#[derive(Clone, Debug, PartialEq, Eq)]
pub struct Mint {
    pub trx_hash: String,
    pub timestamp: i64,
    pub to: String,
    pub amount: Amount,
}

/// Tokens burned from an account.
#[derive(Clone, Debug, PartialEq, Eq)]
pub struct Burn {
    pub trx_hash: String,
    pub timestamp: i64,
    pub from: String,
    pub amount: Amount,
}

/// A token account initialised for the tracked mint.
#[derive(Clone, Debug, PartialEq, Eq)]
pub struct InitializedAccount {
    pub trx_hash: String,
    pub account: String,
    pub mint: String,
    pub owner: String,
}

/// One emitted event, of any of the four kinds.
#[derive(Clone, Debug, PartialEq, Eq)]
pub enum Event {
    Transfer(Transfer),
    Mint(Mint),
    Burn(Burn),
    AccountInitialized(InitializedAccount),
}

/// The events of one block, one ordered list per kind.
#[derive(Clone, Debug, PartialEq, Eq)]
pub struct Output {
    pub transfers: Vec<Transfer>,
    pub mints: Vec<Mint>,
    pub burns: Vec<Burn>,
    pub initialized_account: Vec<InitializedAccount>,
}

pub struct TransferView {
    pub trx_hash: Seq<char>,
    pub timestamp: i64,
    pub from: Seq<char>,
    pub to: Seq<char>,
    pub amount: Amount,
}

pub struct MintView {
    pub trx_hash: Seq<char>,
    pub timestamp: i64,
    pub to: Seq<char>,
    pub amount: Amount,
}

pub struct BurnView {
    pub trx_hash: Seq<char>,
    pub timestamp: i64,
    pub from: Seq<char>,
    pub amount: Amount,
}

pub struct InitializedAccountView {
    pub trx_hash: Seq<char>,
    pub account: Seq<char>,
    pub mint: Seq<char>,
    pub owner: Seq<char>,
}

pub enum EventView {
    Transfer(TransferView),
    Mint(MintView),
    Burn(BurnView),
    AccountInitialized(InitializedAccountView),
}

pub struct OutputView {
    pub transfers: Seq<TransferView>,
    pub mints: Seq<MintView>,
    pub burns: Seq<BurnView>,
    pub initialized_account: Seq<InitializedAccountView>,
}

impl View for Transfer {
    type V = TransferView;

    open spec fn view(&self) -> TransferView {
        TransferView {
            trx_hash: self.trx_hash@,
            timestamp: self.timestamp,
            from: self.from@,
            to: self.to@,
            amount: self.amount,
        }
    }
}

impl View for Mint {
    type V = MintView;

    open spec fn view(&self) -> MintView {
        MintView {
            trx_hash: self.trx_hash@,
            timestamp: self.timestamp,
            to: self.to@,
            amount: self.amount,
        }
    }
}

impl View for Burn {
    type V = BurnView;

    open spec fn view(&self) -> BurnView {
        BurnView {
            trx_hash: self.trx_hash@,
            timestamp: self.timestamp,
            from: self.from@,
            amount: self.amount,
        }
    }
}

impl View for InitializedAccount {
    type V = InitializedAccountView;

    open spec fn view(&self) -> InitializedAccountView {
        InitializedAccountView {
            trx_hash: self.trx_hash@,
            account: self.account@,
            mint: self.mint@,
            owner: self.owner@,
        }
    }
}

impl View for Event {
    type V = EventView;

    open spec fn view(&self) -> EventView {
        match self {
            Event::Transfer(e) => EventView::Transfer(e@),
            Event::Mint(e) => EventView::Mint(e@),
            Event::Burn(e) => EventView::Burn(e@),
            Event::AccountInitialized(e) => EventView::AccountInitialized(e@),
        }
    }
}

impl View for Output {
    type V = OutputView;

    open spec fn view(&self) -> OutputView {
        OutputView {
            transfers: self.transfers@.map_values(|e: Transfer| e@),
            mints: self.mints@.map_values(|e: Mint| e@),
            burns: self.burns@.map_values(|e: Burn| e@),
            initialized_account: self.initialized_account@.map_values(|e: InitializedAccount| e@),
        }
    }
}

/// The transfers among `events`, in their order.
pub open spec fn transfers_of(events: Seq<EventView>) -> Seq<TransferView>
    decreases events.len(),
{
    if events.len() == 0 {
        Seq::empty()
    } else {
        let before = transfers_of(events.drop_last());
        match events.last() {
            EventView::Transfer(e) => before.push(e),
            _ => before,
        }
    }
}

/// The mints among `events`, in their order.
pub open spec fn mints_of(events: Seq<EventView>) -> Seq<MintView>
    decreases events.len(),
{
    if events.len() == 0 {
        Seq::empty()
    } else {
        let before = mints_of(events.drop_last());
        match events.last() {
            EventView::Mint(e) => before.push(e),
            _ => before,
        }
    }
}

/// The burns among `events`, in their order.
pub open spec fn burns_of(events: Seq<EventView>) -> Seq<BurnView>
    decreases events.len(),
{
    if events.len() == 0 {
        Seq::empty()
    } else {
        let before = burns_of(events.drop_last());
        match events.last() {
            EventView::Burn(e) => before.push(e),
            _ => before,
        }
    }
}

/// The account initialisations among `events`, in their order.
pub open spec fn initialized_accounts_of(events: Seq<EventView>) -> Seq<InitializedAccountView>
    decreases events.len(),
{
    if events.len() == 0 {
        Seq::empty()
    } else {
        let before = initialized_accounts_of(events.drop_last());
        match events.last() {
            EventView::AccountInitialized(e) => before.push(e),
            _ => before,
        }
    }
}

impl OutputView {
    /// The output of a block without events.
    pub open spec fn empty() -> OutputView {
        OutputView {
            transfers: Seq::empty(),
            mints: Seq::empty(),
            burns: Seq::empty(),
            initialized_account: Seq::empty(),
        }
    }

    /// The number of events in the four lists together.
    pub open spec fn total(self) -> nat {
        self.transfers.len() + self.mints.len() + self.burns.len()
            + self.initialized_account.len()
    }

    /// The output with `event` appended to the list of its kind.
    pub open spec fn record(self, event: EventView) -> OutputView {
        match event {
            EventView::Transfer(e) => OutputView { transfers: self.transfers.push(e), ..self },
            EventView::Mint(e) => OutputView { mints: self.mints.push(e), ..self },
            EventView::Burn(e) => OutputView { burns: self.burns.push(e), ..self },
            EventView::AccountInitialized(e) => OutputView {
                initialized_account: self.initialized_account.push(e),
                ..self
            },
        }
    }

    /// The output with `events` appended in order, each to the list of its
    /// kind.
    pub open spec fn record_all(self, events: Seq<EventView>) -> OutputView {
        OutputView {
            transfers: self.transfers + transfers_of(events),
            mints: self.mints + mints_of(events),
            burns: self.burns + burns_of(events),
            initialized_account: self.initialized_account + initialized_accounts_of(events),
        }
    }
}

impl Output {
    /// An output without events.
    pub fn new() -> (r: Output)
        ensures
            r@ == OutputView::empty(),
    {
        let r = Output {
            transfers: Vec::new(),
            mints: Vec::new(),
            burns: Vec::new(),
            initialized_account: Vec::new(),
        };
        assert(r@.transfers =~= Seq::empty());
        assert(r@.mints =~= Seq::empty());
        assert(r@.burns =~= Seq::empty());
        assert(r@.initialized_account =~= Seq::empty());
        r
    }

    /// Appends `event` to the list of its kind.
    pub fn record(&mut self, event: Event)
        ensures
            final(self)@ == old(self)@.record(event@),
    {
        match event {
            Event::Transfer(e) => {
                self.transfers.push(e);
                assert(self@.transfers =~= old(self)@.transfers.push(e@));
            },
            Event::Mint(e) => {
                self.mints.push(e);
                assert(self@.mints =~= old(self)@.mints.push(e@));
            },
            Event::Burn(e) => {
                self.burns.push(e);
                assert(self@.burns =~= old(self)@.burns.push(e@));
            },
            Event::AccountInitialized(e) => {
                self.initialized_account.push(e);
                assert(self@.initialized_account =~= old(self)@.initialized_account.push(e@));
            },
        }
    }

    /// Whether all four lists are empty.
    pub fn is_empty(&self) -> (r: bool)
        ensures
            r == (self@.total() == 0),
    {
        self.transfers.len() == 0 && self.mints.len() == 0 && self.burns.len() == 0
            && self.initialized_account.len() == 0
    }
}

impl Default for Output {
    fn default() -> (r: Output)
        ensures
            r@ == OutputView::empty(),
    {
        Output::new()
    }
}

/// Recording nothing leaves an output as it is.
pub proof fn lemma_record_nothing(out: OutputView)
    ensures
        out.record_all(Seq::empty()) == out,
{
    assert(out.record_all(Seq::empty()).transfers =~= out.transfers);
    assert(out.record_all(Seq::empty()).mints =~= out.mints);
    assert(out.record_all(Seq::empty()).burns =~= out.burns);
    assert(out.record_all(Seq::empty()).initialized_account =~= out.initialized_account);
}

/// Recording a list and then one more event is recording the longer list.
pub proof fn lemma_record_push(out: OutputView, events: Seq<EventView>, event: EventView)
    ensures
        out.record_all(events.push(event)) == out.record_all(events).record(event),
{
    let longer = events.push(event);
    assert(longer.drop_last() =~= events);
    assert(longer.last() == event);
    let a = out.record_all(longer);
    let b = out.record_all(events).record(event);
    assert(a.transfers =~= b.transfers);
    assert(a.mints =~= b.mints);
    assert(a.burns =~= b.burns);
    assert(a.initialized_account =~= b.initialized_account);
}

/// Each list of kind-wise events splits where the list of events splits.
pub proof fn lemma_kinds_of_concat(first: Seq<EventView>, second: Seq<EventView>)
    ensures
        transfers_of(first + second) == transfers_of(first) + transfers_of(second),
        mints_of(first + second) == mints_of(first) + mints_of(second),
        burns_of(first + second) == burns_of(first) + burns_of(second),
        initialized_accounts_of(first + second) == initialized_accounts_of(first)
            + initialized_accounts_of(second),
    decreases second.len(),
{
    if second.len() == 0 {
        assert(first + second =~= first);
        assert(transfers_of(first) + transfers_of(second) =~= transfers_of(first));
        assert(mints_of(first) + mints_of(second) =~= mints_of(first));
        assert(burns_of(first) + burns_of(second) =~= burns_of(first));
        assert(initialized_accounts_of(first) + initialized_accounts_of(second)
            =~= initialized_accounts_of(first));
    } else {
        lemma_kinds_of_concat(first, second.drop_last());
        assert((first + second).drop_last() =~= first + second.drop_last());
        assert((first + second).last() == second.last());
        assert(transfers_of(first + second) =~= transfers_of(first) + transfers_of(second));
        assert(mints_of(first + second) =~= mints_of(first) + mints_of(second));
        assert(burns_of(first + second) =~= burns_of(first) + burns_of(second));
        assert(initialized_accounts_of(first + second) =~= initialized_accounts_of(first)
            + initialized_accounts_of(second));
    }
}

/// Recording two lists one after the other is recording their concatenation.
pub proof fn lemma_record_concat(out: OutputView, first: Seq<EventView>, second: Seq<EventView>)
    ensures
        out.record_all(first + second) == out.record_all(first).record_all(second),
{
    lemma_kinds_of_concat(first, second);
    let a = out.record_all(first + second);
    let b = out.record_all(first).record_all(second);
    assert(a.transfers =~= b.transfers);
    assert(a.mints =~= b.mints);
    assert(a.burns =~= b.burns);
    assert(a.initialized_account =~= b.initialized_account);
}

} // verus!
