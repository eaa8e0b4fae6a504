//! A registry of named faults that the services ask at chosen points.

use vstd::prelude::*;

use crate::model::{copy_opt_text, opt_view};
use crate::text::text_eq;
use crate::text_map::{by_key, keys_differ, TextMap};

verus! {

/// How a fault behaves: how many more times it fires, for which subject only
/// (where it is set), and how long to wait before it takes effect.
#[derive(Debug, PartialEq, Eq)]
pub struct FaultConfig {
    pub fail_next: u32,
    pub subject_filter: Option<String>,
    pub delay_ms: Option<u64>,
}

impl Clone for FaultConfig {
    fn clone(&self) -> (r: FaultConfig)
        ensures
            r == *self,
    {
        FaultConfig {
            fail_next: self.fail_next,
            subject_filter: copy_opt_text(&self.subject_filter),
            delay_ms: self.delay_ms,
        }
    }
}

/// What a [`FaultConfig`] says.
pub struct FaultConfigView {
    pub fail_next: u32,
    pub subject_filter: Option<Seq<char>>,
    pub delay_ms: Option<u64>,
}

impl View for FaultConfig {
    type V = FaultConfigView;

    open spec fn view(&self) -> FaultConfigView {
        FaultConfigView {
            fail_next: self.fail_next,
            subject_filter: opt_view(self.subject_filter),
            delay_ms: self.delay_ms,
        }
    }
}

/// A fault has fired.
#[derive(Debug, PartialEq, Eq)]
pub struct FaultTriggered {
    pub name: String,
}

impl Clone for FaultTriggered {
    fn clone(&self) -> (r: FaultTriggered)
        ensures
            r == *self,
    {
        FaultTriggered {
            name: self.name.clone(),
        }
    }
}

/// Whether the fault fires for a subject.
pub open spec fn fires(
    faults: Map<Seq<char>, FaultConfigView>,
    name: Seq<char>,
    subject: Option<Seq<char>>,
) -> bool {
    &&& faults.dom().contains(name)
    &&& faults[name].fail_next > 0
    &&& faults[name].subject_filter is Some ==> subject == faults[name].subject_filter
}

/// The faults after one of them fired: it fires once less often, and is gone
/// after its last time.
pub open spec fn after_firing(
    faults: Map<Seq<char>, FaultConfigView>,
    name: Seq<char>,
) -> Map<Seq<char>, FaultConfigView> {
    if faults[name].fail_next == 1 {
        faults.remove(name)
    } else {
        faults.insert(
            name,
            FaultConfigView {
                fail_next: (faults[name].fail_next - 1) as u32,
                ..faults[name]
            },
        )
    }
}

/// The registry of faults.
#[derive(Debug)]
pub struct FaultInjector {
    faults: TextMap<FaultConfig>,
}

impl View for FaultInjector {
    type V = Map<Seq<char>, FaultConfigView>;

    closed spec fn view(&self) -> Map<Seq<char>, FaultConfigView> {
        self.faults@
    }
}

impl Default for FaultInjector {
    fn default() -> (r: FaultInjector)
        ensures
            r@ == Map::<Seq<char>, FaultConfigView>::empty(),
    {
        FaultInjector::new()
    }
}

impl FaultInjector {
    /// A registry without faults.
    pub fn new() -> (r: FaultInjector)
        ensures
            r@ == Map::<Seq<char>, FaultConfigView>::empty(),
    {
        FaultInjector { faults: TextMap::new() }
    }

    /// Sets up a fault, in place of an earlier one of the same name.
    pub fn configure(&mut self, name: &str, config: FaultConfig)
        ensures
            final(self)@ == old(self)@.insert(name@, config@),
    {
        self.faults.insert(name, config);
    }

    /// Removes every fault.
    pub fn clear(&mut self)
        ensures
            final(self)@ == Map::<Seq<char>, FaultConfigView>::empty(),
    {
        self.faults = TextMap::new();
    }

    /// The faults that are set up, each once.
    pub fn snapshot(&self) -> (r: Vec<(String, FaultConfig)>)
        ensures
            by_key(r@) == self@,
            keys_differ(r@),
    {
        let faults = self.faults.entries();
        let mut out: Vec<(String, FaultConfig)> = Vec::new();
        let mut i: usize = 0;
        while i < faults.len()
            invariant
                i <= faults.len(),
                out@ == faults@.subrange(0, i as int),
            decreases faults.len() - i,
        {
            let fault = &faults[i];
            out.push((fault.0.clone(), fault.1.clone()));
            i = i + 1;
            assert(out@ =~= faults@.subrange(0, i as int));
        }
        assert(out@ =~= faults@);
        out
    }

    /// Asks at a fault point. Where the fault fires, its delay comes back.
    pub fn check(&mut self, name: &str, subject: Option<&str>) -> (r: Result<
        (),
        (FaultTriggered, Option<u64>),
    >)
        ensures
            match r {
                Ok(()) => !fires(old(self)@, name@, opt_view(subject)) && final(self)@ == old(self)@,
                Err((fault, delay)) => {
                    &&& fires(old(self)@, name@, opt_view(subject))
                    &&& fault.name@ == name@
                    &&& delay == old(self)@[name@].delay_ms
                    &&& final(self)@ == after_firing(old(self)@, name@)
                },
            },
    {
        let config: FaultConfig = match self.faults.get(name) {
            Some(config) => config.clone(),
            None => {
                return Ok(());
            },
        };
        match &config.subject_filter {
            Some(filter) => match subject {
                Some(subject) => if !text_eq(subject, filter.as_str()) {
                    return Ok(());
                },
                None => {
                    return Ok(());
                },
            },
            None => {},
        }
        if config.fail_next == 0 {
            return Ok(());
        }
        let delay: Option<u64> = config.delay_ms;
        if config.fail_next == 1 {
            self.faults.remove(name);
        } else {
            let left = FaultConfig {
                fail_next: config.fail_next - 1,
                subject_filter: config.subject_filter,
                delay_ms: config.delay_ms,
            };
            self.faults.insert(name, left);
        }
        Err((FaultTriggered { name: name.to_owned() }, delay))
    }

    /// Asks at a fault point whether the fault fires.
    pub fn maybe_fail(&mut self, name: &str, subject: Option<&str>) -> (r: Result<
        (),
        FaultTriggered,
    >)
        ensures
            match r {
                Ok(()) => !fires(old(self)@, name@, opt_view(subject)) && final(self)@ == old(self)@,
                Err(fault) => {
                    &&& fires(old(self)@, name@, opt_view(subject))
                    &&& fault.name@ == name@
                    &&& final(self)@ == after_firing(old(self)@, name@)
                },
            },
    {
        match self.check(name, subject) {
            Ok(()) => Ok(()),
            Err((fault, _)) => Err(fault),
        }
    }
}

/// The faults after a point was asked `times` times.
pub open spec fn asked(
    faults: Map<Seq<char>, FaultConfigView>,
    name: Seq<char>,
    subject: Option<Seq<char>>,
    times: nat,
) -> Map<Seq<char>, FaultConfigView>
    decreases times,
{
    if times == 0 {
        faults
    } else {
        let before = asked(faults, name, subject, (times - 1) as nat);
        if fires(before, name, subject) {
            after_firing(before, name)
        } else {
            before
        }
    }
}

proof fn lemma_asked(
    faults: Map<Seq<char>, FaultConfigView>,
    name: Seq<char>,
    subject: Option<Seq<char>>,
    times: nat,
)
    requires
        fires(faults, name, subject),
    ensures
        times < faults[name].fail_next ==> {
            let after = asked(faults, name, subject, times);
            &&& fires(after, name, subject)
            &&& after[name].fail_next == faults[name].fail_next - times
            &&& after[name].subject_filter == faults[name].subject_filter
        },
        times >= faults[name].fail_next ==> !asked(
            faults,
            name,
            subject,
            times,
        ).dom().contains(name),
    decreases times,
{
    if times > 0 {
        lemma_asked(faults, name, subject, (times - 1) as nat);
    }
}

/// A fault set up to fire `n` times fires at the first `n` matching
/// questions and at no later one.
pub proof fn faults_fire_as_often_as_configured(
    faults: Map<Seq<char>, FaultConfigView>,
    name: Seq<char>,
    subject: Option<Seq<char>>,
    times: nat,
)
    requires
        fires(faults, name, subject),
    ensures
        fires(asked(faults, name, subject, times), name, subject) <==> times
            < faults[name].fail_next,
{
    lemma_asked(faults, name, subject, times);
}

/// A question about another subject, or about another fault, changes nothing
/// and fires nothing.
pub proof fn unmatched_questions_change_nothing(
    faults: Map<Seq<char>, FaultConfigView>,
    name: Seq<char>,
    subject: Option<Seq<char>>,
)
    requires
        !faults.dom().contains(name) || (faults[name].subject_filter is Some && subject
            != faults[name].subject_filter),
    ensures
        !fires(faults, name, subject),
        asked(faults, name, subject, 1) == faults,
{
    reveal_with_fuel(asked, 2);
}

/// A fault fires exactly where it is set up, has firings left, and is meant
/// for every subject or for this one. Each firing uses up one; after the last
/// the fault is gone, and no other fault is touched.
pub proof fn faults_fire_while_they_last(
    faults: Map<Seq<char>, FaultConfigView>,
    name: Seq<char>,
    subject: Option<Seq<char>>,
    other: Seq<char>,
)
    ensures
        fires(faults, name, subject) <==> faults.dom().contains(name) && faults[name].fail_next >= 1
            && (faults[name].subject_filter is None || faults[name].subject_filter == subject),
        fires(faults, name, subject) ==> {
            let after = after_firing(faults, name);
            &&& after.dom().contains(name) <==> faults[name].fail_next >= 2
            &&& after.dom().contains(name) ==> {
                &&& after[name].fail_next == faults[name].fail_next - 1
                &&& after[name].subject_filter == faults[name].subject_filter
                &&& after[name].delay_ms == faults[name].delay_ms
            }
            &&& other != name ==> (after.dom().contains(other) <==> faults.dom().contains(other))
            &&& other != name && faults.dom().contains(other) ==> after[other] == faults[other]
        },
{
}

/// Asked at a point, the registry answers exactly where its fault fires, with
/// the name and the delay of the fault, and uses one firing up; set up and
/// cleared, it holds what it was told.
pub proof fn points_are_answered_as_set_up(
    faults: &mut FaultInjector,
    name: &str,
    subject: Option<&str>,
    config: FaultConfig,
    r: Result<(), (FaultTriggered, Option<u64>)>,
)
    ensures
        call_ensures(FaultInjector::check, (faults, name, subject), r) ==> {
            let before = old(faults)@;
            let set = before[name@];
            let fired = before.dom().contains(name@) && set.fail_next >= 1 && (set.subject_filter
                is None || (subject is Some && subject->0@ == set.subject_filter->0));
            &&& r is Err <==> fired
            &&& r is Ok ==> final(faults)@ == before
            &&& r matches Err((fault, delay)) ==> {
                &&& fault.name@ == name@
                &&& delay == set.delay_ms
                &&& set.fail_next == 1 ==> final(faults)@ == before.remove(name@)
                &&& set.fail_next > 1 ==> final(faults)@.dom().contains(name@)
                    && final(faults)@[name@].fail_next == set.fail_next - 1
            }
        },
        call_ensures(FaultInjector::configure, (faults, name, config), ()) ==> final(faults)@
            == old(faults)@.insert(name@, config@),
        call_ensures(FaultInjector::clear, (faults,), ()) ==> final(faults)@ == Map::<
            Seq<char>,
            FaultConfigView,
        >::empty(),
{
}

}
