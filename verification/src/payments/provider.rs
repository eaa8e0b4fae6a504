//! A payment provider in the process that keeps a ledger by idempotency key:
//! whatever is asked twice under one key is done once.

use vstd::prelude::*;

use crate::domain_common::{is_version_7, ErrorClass};
use crate::ids::{fresh_id, id_text};
use crate::persistence::outbox::{count, counted};
use crate::test_support::fault::{after_firing, fires, FaultConfigView, FaultInjector};
use crate::text::{join, uuid_text};
use crate::text_map::TextMap;

verus! {

pub const FAULT_PROVIDER_TIMEOUT: &'static str = "payments.provider.timeout";

pub const FAULT_PROVIDER_DECLINE: &'static str = "payments.provider.decline";

pub const FAULT_PROVIDER_RESPONSE_LOST: &'static str = "payments.provider.success_response_lost";

pub const FAULT_PROVIDER_REFUND_TIMEOUT: &'static str = "payments.provider.refund_timeout";

/// How the provider decided.
#[derive(Debug, PartialEq, Eq)]
pub enum ProviderOutcome {
    Authorized { provider_reference: String },
    Declined { reason_code: String },
}

/// What a [`ProviderOutcome`] says.
pub enum OutcomeView {
    Authorized { provider_reference: Seq<char> },
    Declined { reason_code: Seq<char> },
}

impl View for ProviderOutcome {
    type V = OutcomeView;

    open spec fn view(&self) -> OutcomeView {
        match *self {
            ProviderOutcome::Authorized { provider_reference } => (OutcomeView::Authorized {
                provider_reference: provider_reference@,
            }),
            ProviderOutcome::Declined { reason_code } => (OutcomeView::Declined {
                reason_code: reason_code@,
            }),
        }
    }
}

impl Clone for ProviderOutcome {
    fn clone(&self) -> (r: ProviderOutcome)
        ensures
            r == *self,
    {
        match self {
            ProviderOutcome::Authorized { provider_reference } => ProviderOutcome::Authorized {
                provider_reference: provider_reference.clone(),
            },
            ProviderOutcome::Declined { reason_code } => ProviderOutcome::Declined {
                reason_code: reason_code.clone(),
            },
        }
    }
}

/// The provider did not answer: it may or may not have acted.
#[derive(Debug, PartialEq, Eq)]
pub enum ProviderError {
    Unavailable(String),
}

impl ProviderError {
    /// Another attempt may succeed.
    pub fn error_class(&self) -> (r: ErrorClass)
        ensures
            r is Transient,
    {
        match self {
            ProviderError::Unavailable(_) => ErrorClass::Transient,
        }
    }

    /// The error in words.
    pub fn message(&self) -> (r: String)
        ensures
            r@ == "payment provider unavailable: "@ + self->Unavailable_0@,
    {
        match self {
            ProviderError::Unavailable(detail) => join(
                "payment provider unavailable: ",
                detail.as_str(),
            ),
        }
    }
}

/// The provider's ledgers and counters, and the faults that are set up for
/// it.
pub struct ProviderView {
    pub faults: Map<Seq<char>, FaultConfigView>,
    pub charges: Map<Seq<char>, OutcomeView>,
    pub refunds: Map<Seq<char>, bool>,
    pub real_authorize_calls: u64,
    pub real_refund_calls: u64,
}

/// The provider.
#[derive(Debug)]
pub struct FakeProvider {
    pub fault_injector: FaultInjector,
    pub authorize_ledger: TextMap<ProviderOutcome>,
    pub refund_ledger: TextMap<bool>,
    pub real_authorize_calls: u64,
    pub real_refund_calls: u64,
}

impl View for FakeProvider {
    type V = ProviderView;

    open spec fn view(&self) -> ProviderView {
        ProviderView {
            faults: self.fault_injector@,
            charges: self.authorize_ledger@,
            refunds: self.refund_ledger@,
            real_authorize_calls: self.real_authorize_calls,
            real_refund_calls: self.real_refund_calls,
        }
    }
}

/// What the provider answers, and how long it takes where a fault with a
/// delay fired.
#[derive(Debug)]
pub struct ProviderReply<T> {
    pub result: Result<T, ProviderError>,
    pub delay_ms: Option<u64>,
}

/// A provider of payments. Every call carries a key, and a call with a known
/// key is a retry of the one that the key was first used for.
pub trait PaymentProvider {
    /// Authorizes a payment.
    fn authorize(
        &mut self,
        idempotency_key: &str,
        order_id: u128,
        amount_minor: i64,
        currency: &str,
    ) -> ProviderReply<ProviderOutcome>;

    /// Refunds a payment.
    fn refund(
        &mut self,
        idempotency_key: &str,
        order_id: u128,
        provider_reference: &str,
    ) -> ProviderReply<()>;
}

/// The provider after an authorization, and its answer: a known key is
/// answered from the ledger; a timeout leaves no trace; a decline and a
/// success are written down, the latter also where its response is lost.
pub open spec fn authorization(
    provider: ProviderView,
    key: Seq<char>,
    reference: Seq<char>,
) -> (ProviderView, Result<OutcomeView, Seq<char>>, Option<u64>) {
    let timeout = FAULT_PROVIDER_TIMEOUT@;
    let decline = FAULT_PROVIDER_DECLINE@;
    let lost = FAULT_PROVIDER_RESPONSE_LOST@;
    let declined = OutcomeView::Declined { reason_code: "CARD_DECLINED"@ };
    let authorized = OutcomeView::Authorized { provider_reference: reference };
    if provider.charges.dom().contains(key) {
        (provider, Ok(provider.charges[key]), None)
    } else if fires(provider.faults, timeout, Some(key)) {
        (
            ProviderView { faults: after_firing(provider.faults, timeout), ..provider },
            Err("simulated provider timeout"@),
            provider.faults[timeout].delay_ms,
        )
    } else if fires(provider.faults, decline, Some(key)) {
        (
            ProviderView {
                faults: after_firing(provider.faults, decline),
                charges: provider.charges.insert(key, declined),
                real_authorize_calls: counted(provider.real_authorize_calls),
                ..provider
            },
            Ok(declined),
            provider.faults[decline].delay_ms,
        )
    } else if fires(provider.faults, lost, Some(key)) {
        (
            ProviderView {
                faults: after_firing(provider.faults, lost),
                charges: provider.charges.insert(key, authorized),
                real_authorize_calls: counted(provider.real_authorize_calls),
                ..provider
            },
            Err("simulated response loss after commit"@),
            provider.faults[lost].delay_ms,
        )
    } else {
        (
            ProviderView {
                charges: provider.charges.insert(key, authorized),
                real_authorize_calls: counted(provider.real_authorize_calls),
                ..provider
            },
            Ok(authorized),
            None,
        )
    }
}

/// The provider after a refund, and its answer.
pub open spec fn refunding(provider: ProviderView, key: Seq<char>) -> (
    ProviderView,
    Result<(), Seq<char>>,
    Option<u64>,
) {
    let timeout = FAULT_PROVIDER_REFUND_TIMEOUT@;
    if provider.refunds.dom().contains(key) {
        (provider, Ok(()), None)
    } else if fires(provider.faults, timeout, Some(key)) {
        (
            ProviderView { faults: after_firing(provider.faults, timeout), ..provider },
            Err("simulated refund timeout"@),
            provider.faults[timeout].delay_ms,
        )
    } else {
        (
            ProviderView {
                refunds: provider.refunds.insert(key, true),
                real_refund_calls: counted(provider.real_refund_calls),
                ..provider
            },
            Ok(()),
            None,
        )
    }
}

/// The answer is the one that is owed.
pub open spec fn authorization_answered(
    result: Result<ProviderOutcome, ProviderError>,
    owed: Result<OutcomeView, Seq<char>>,
) -> bool {
    match (result, owed) {
        (Ok(outcome), Ok(view)) => outcome@ == view,
        (Err(ProviderError::Unavailable(detail)), Err(words)) => detail@ == words,
        _ => false,
    }
}

/// The answer is the one that is owed.
pub open spec fn refund_answered(
    result: Result<(), ProviderError>,
    owed: Result<(), Seq<char>>,
) -> bool {
    match (result, owed) {
        (Ok(()), Ok(())) => true,
        (Err(ProviderError::Unavailable(detail)), Err(words)) => detail@ == words,
        _ => false,
    }
}

impl FakeProvider {
    /// A provider with empty ledgers.
    pub fn new(fault_injector: FaultInjector) -> (r: FakeProvider)
        ensures
            r.fault_injector == fault_injector,
            r@ == (ProviderView {
                faults: fault_injector@,
                charges: Map::empty(),
                refunds: Map::empty(),
                real_authorize_calls: 0,
                real_refund_calls: 0,
            }),
    {
        FakeProvider {
            fault_injector,
            authorize_ledger: TextMap::new(),
            refund_ledger: TextMap::new(),
            real_authorize_calls: 0,
            real_refund_calls: 0,
        }
    }

    /// How many authorizations did something new.
    pub fn real_authorize_calls(&self) -> (r: u64)
        ensures
            r == self@.real_authorize_calls,
    {
        self.real_authorize_calls
    }

    /// How many refunds did something new.
    pub fn real_refund_calls(&self) -> (r: u64)
        ensures
            r == self@.real_refund_calls,
    {
        self.real_refund_calls
    }

    /// Authorizes a payment under the given reference.
    pub fn authorize_as(&mut self, idempotency_key: &str, reference: String) -> (r: ProviderReply<
        ProviderOutcome,
    >)
        ensures
            ({
                let owed = authorization(old(self)@, idempotency_key@, reference@);
                &&& final(self)@ == owed.0
                &&& authorization_answered(r.result, owed.1)
                &&& r.delay_ms == owed.2
            }),
    {
        match self.authorize_ledger.get(idempotency_key) {
            Some(outcome) => {
                return ProviderReply { result: Ok(outcome.clone()), delay_ms: None };
            },
            None => {},
        }
        match self.fault_injector.check(FAULT_PROVIDER_TIMEOUT, Some(idempotency_key)) {
            Err((_, delay_ms)) => {
                return ProviderReply {
                    result: Err(
                        ProviderError::Unavailable("simulated provider timeout".to_owned()),
                    ),
                    delay_ms,
                };
            },
            Ok(()) => {},
        }
        match self.fault_injector.check(FAULT_PROVIDER_DECLINE, Some(idempotency_key)) {
            Err((_, delay_ms)) => {
                let outcome = ProviderOutcome::Declined {
                    reason_code: "CARD_DECLINED".to_owned(),
                };
                self.authorize_ledger.insert(idempotency_key, outcome.clone());
                self.real_authorize_calls = count(self.real_authorize_calls);
                return ProviderReply { result: Ok(outcome), delay_ms };
            },
            Ok(()) => {},
        }
        let lost: Option<Option<u64>> = match self.fault_injector.check(
            FAULT_PROVIDER_RESPONSE_LOST,
            Some(idempotency_key),
        ) {
            Err((_, delay_ms)) => Some(delay_ms),
            Ok(()) => None,
        };
        let outcome = ProviderOutcome::Authorized { provider_reference: reference };
        self.authorize_ledger.insert(idempotency_key, outcome.clone());
        self.real_authorize_calls = count(self.real_authorize_calls);
        match lost {
            Some(delay_ms) => ProviderReply {
                result: Err(
                    ProviderError::Unavailable("simulated response loss after commit".to_owned()),
                ),
                delay_ms,
            },
            None => ProviderReply { result: Ok(outcome), delay_ms: None },
        }
    }

}

impl PaymentProvider for FakeProvider {
    /// Authorizes a payment, under a fresh reference where it is new. The
    /// order and the amount do not bear on the decision.
    fn authorize(
        &mut self,
        idempotency_key: &str,
        order_id: u128,
        amount_minor: i64,
        currency: &str,
    ) -> (r: ProviderReply<ProviderOutcome>)
        ensures
            exists|id: u128|
                {
                    let owed = #[trigger] authorization(
                        old(self)@,
                        idempotency_key@,
                        "prov_"@ + uuid_text(id),
                    );
                    &&& final(self)@ == owed.0
                    &&& authorization_answered(r.result, owed.1)
                    &&& r.delay_ms == owed.2
                    &&& is_version_7(id)
                },
    {
        let id: u128 = fresh_id();
        let reference: String = join("prov_", id_text(id).as_str());
        let ghost named = "prov_"@ + uuid_text(id);
        let ghost owed = authorization(self@, idempotency_key@, named);
        self.authorize_as(idempotency_key, reference)
    }

    /// Refunds a payment. The order and the reference do not bear on the
    /// decision.
    fn refund(&mut self, idempotency_key: &str, order_id: u128, provider_reference: &str) -> (r:
        ProviderReply<()>)
        ensures
            ({
                let owed = refunding(old(self)@, idempotency_key@);
                &&& final(self)@ == owed.0
                &&& refund_answered(r.result, owed.1)
                &&& r.delay_ms == owed.2
            }),
    {
        match self.refund_ledger.get(idempotency_key) {
            Some(_) => {
                return ProviderReply { result: Ok(()), delay_ms: None };
            },
            None => {},
        }
        match self.fault_injector.check(FAULT_PROVIDER_REFUND_TIMEOUT, Some(idempotency_key)) {
            Err((_, delay_ms)) => {
                return ProviderReply {
                    result: Err(
                        ProviderError::Unavailable("simulated refund timeout".to_owned()),
                    ),
                    delay_ms,
                };
            },
            Ok(()) => {},
        }
        self.refund_ledger.insert(idempotency_key, true);
        self.real_refund_calls = count(self.real_refund_calls);
        ProviderReply { result: Ok(()), delay_ms: None }
    }
}

/// Once a key is in the ledger, every further authorization under it gives
/// the same answer and does nothing: a retry cannot charge twice.
pub proof fn authorizations_are_idempotent(
    provider: ProviderView,
    key: Seq<char>,
    reference: Seq<char>,
    other: Seq<char>,
)
    ensures
        ({
            let first = authorization(provider, key, reference);
            let again = authorization(first.0, key, other);
            &&& first.1 is Ok ==> again.0 == first.0 && again.1 == first.1
            &&& first.0.charges.dom().contains(key) ==> again.0 == first.0 && again.1 is Ok
                && again.1->Ok_0 == first.0.charges[key]
            &&& !first.0.charges.dom().contains(key) ==> first.1 is Err
                && first.0.real_authorize_calls == provider.real_authorize_calls
                && first.0.charges == provider.charges
        }),
{
}

/// A lost response is made good by the next attempt: it brings the
/// authorization that was written down.
pub proof fn lost_responses_are_replayed(
    provider: ProviderView,
    key: Seq<char>,
    reference: Seq<char>,
    other: Seq<char>,
)
    requires
        !provider.charges.dom().contains(key),
        !fires(provider.faults, FAULT_PROVIDER_TIMEOUT@, Some(key)),
        !fires(provider.faults, FAULT_PROVIDER_DECLINE@, Some(key)),
        fires(provider.faults, FAULT_PROVIDER_RESPONSE_LOST@, Some(key)),
    ensures
        ({
            let first = authorization(provider, key, reference);
            let again = authorization(first.0, key, other);
            &&& first.1 is Err
            &&& again.1 == Ok::<OutcomeView, Seq<char>>(
                OutcomeView::Authorized { provider_reference: reference },
            )
            &&& again.0.real_authorize_calls == counted(provider.real_authorize_calls)
        }),
{
}

/// A refund under one key is done once, however often it is asked for.
pub proof fn refunds_are_idempotent(provider: ProviderView, key: Seq<char>)
    ensures
        ({
            let first = refunding(provider, key);
            let again = refunding(first.0, key);
            &&& first.1 is Ok ==> again.0 == first.0 && again.1 is Ok
            &&& first.1 is Err ==> first.0.refunds == provider.refunds
                && first.0.real_refund_calls == provider.real_refund_calls
        }),
{
}

/// The provider after it was asked to authorize under one key once for each
/// reference.
pub open spec fn asked_to_authorize(
    provider: ProviderView,
    key: Seq<char>,
    references: Seq<Seq<char>>,
) -> ProviderView
    decreases references.len(),
{
    if references.len() == 0 {
        provider
    } else {
        authorization(
            asked_to_authorize(provider, key, references.drop_last()),
            key,
            references.last(),
        ).0
    }
}

/// However often an authorization is asked for under one key, and whatever
/// fails in between, it is carried out at most once.
pub proof fn one_key_charges_at_most_once(
    provider: ProviderView,
    key: Seq<char>,
    references: Seq<Seq<char>>,
)
    requires
        !provider.charges.dom().contains(key),
    ensures
        ({
            let after = asked_to_authorize(provider, key, references);
            if after.charges.dom().contains(key) {
                after.real_authorize_calls == counted(provider.real_authorize_calls)
            } else {
                after.real_authorize_calls == provider.real_authorize_calls
            }
        }),
    decreases references.len(),
{
    if references.len() > 0 {
        one_key_charges_at_most_once(provider, key, references.drop_last());
    }
}

/// An authorization under one key leaves every other key alone.
pub proof fn authorizations_keep_to_their_key(
    provider: ProviderView,
    key: Seq<char>,
    reference: Seq<char>,
    other: Seq<char>,
)
    requires
        other != key,
    ensures
        ({
            let after = authorization(provider, key, reference).0;
            &&& after.charges.dom().contains(other) == provider.charges.dom().contains(other)
            &&& provider.charges.dom().contains(other) ==> after.charges[other]
                == provider.charges[other]
            &&& after.refunds == provider.refunds
        }),
{
}

}
