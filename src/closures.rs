//! Closures: choosing a workout, caching and memoizing a calculation.

use std::collections::HashMap;
use vstd::prelude::*;

verus! {

/// The kind of workout for a day.
#[derive(Clone, Copy, Debug, PartialEq, Eq, Structural)]
pub enum Workout {
    /// Pushups, then situps, as many of each as the intensity gives.
    PushupsAndSitups,
    /// A day off.
    Break,
    /// A run, for as many minutes as the intensity gives.
    Run,
}

/// Chooses the workout for `intensity`: a low intensity (under 25) gives
/// pushups and situps; a higher one a run, or a break when `random_number`
/// is 3.
pub fn plan_workout(intensity: u32, random_number: u32) -> (r: Workout)
    ensures
        intensity < 25 ==> r == Workout::PushupsAndSitups,
        intensity >= 25 && random_number == 3 ==> r == Workout::Break,
        intensity >= 25 && random_number != 3 ==> r == Workout::Run,
{
    if intensity < 25 {
        Workout::PushupsAndSitups
    } else {
        if random_number == 3 {
            Workout::Break
        } else {
            Workout::Run
        }
    }
}

/// Adds one to `x`, as a function.
#[allow(dead_code)]
fn add_one_v1(x: u32) -> (r: u32)
    requires
        x < u32::MAX,
    ensures
        r == x + 1,
{
    x + 1
}

/// The same addition written as a function and as closures.
#[allow(dead_code)]
fn _equivalent_fns_and_closures() {
    let _add_one_v2 = |x: u32| -> (r: u32)
        requires
            x < u32::MAX,
        ensures
            r == x + 1,
        { x + 1 };
    let add_one_v3 = |x: u32| -> (r: u32)
        requires
            x < u32::MAX,
        { x + 1 };
    let add_one_v4 = |x: u32| -> (r: u32)
        requires
            x < u32::MAX,
        { x + 1 };
    add_one_v3(42);
    add_one_v4(2);
}

/// A closure whose parameter type is fixed by its first use.
#[allow(dead_code)]
fn _conflict_in_type_inference() {
    let example_closure = |x: String| x;
    let _s = example_closure("hello".to_owned());
}

/// Runs a calculation once, on the first argument it is asked for, and
/// keeps the result.
pub struct Cacher<T> where T: Fn(u32) -> u32 {
    calculation: T,
    value: Option<u32>,
}

impl<T> Cacher<T> where T: Fn(u32) -> u32 {
    /// The calculation.
    pub closed spec fn spec_calculation(&self) -> T {
        self.calculation
    }

    /// The kept result, if the calculation has run.
    pub closed spec fn spec_value(&self) -> Option<u32> {
        self.value
    }

    /// A cacher of `calculation` that has not run it yet.
    pub fn new(calculation: T) -> (r: Cacher<T>)
        ensures
            r.spec_calculation() == calculation,
            r.spec_value() is None,
    {
        Cacher { calculation, value: None }
    }

    /// The kept result; on the first call, the calculation's result for
    /// `arg`, which is then kept. Later arguments are not looked at.
    pub fn value(&mut self, arg: u32) -> (r: u32)
        requires
            old(self).spec_value() is None ==> call_requires(old(self).spec_calculation(), (arg,)),
        ensures
            final(self).spec_calculation() == old(self).spec_calculation(),
            old(self).spec_value() matches Some(v) ==> r == v && final(self).spec_value()
                == old(self).spec_value(),
            old(self).spec_value() is None ==> call_ensures(
                old(self).spec_calculation(),
                (arg,),
                r,
            ) && final(self).spec_value() == Some(r),
    {
        match self.value {
            Some(v) => v,
            None => {
                let v = (self.calculation)(arg);
                self.value = Some(v);
                v
            },
        }
    }
}

/// Runs a calculation once for each argument, and keeps every result.
pub struct Memoizer<T> where T: Fn(&i64) -> i64 {
    calculation: T,
    memoized: HashMap<i64, i64>,
}

impl<T> Memoizer<T> where T: Fn(&i64) -> i64 {
    /// The calculation.
    pub closed spec fn spec_calculation(&self) -> T {
        self.calculation
    }

    /// The kept results, by argument.
    pub closed spec fn spec_memoized(&self) -> Map<i64, i64> {
        self.memoized@
    }

    /// Every kept result is one that the calculation gives for its argument.
    pub open spec fn wf(&self) -> bool {
        forall|k: i64| #[trigger]
            self.spec_memoized().contains_key(k) ==> call_ensures(
                self.spec_calculation(),
                (&k,),
                self.spec_memoized()[k],
            )
    }

    /// A memoizer of `calculation` that has kept nothing yet.
    pub fn new(calculation: T) -> (r: Memoizer<T>)
        ensures
            r.spec_calculation() == calculation,
            r.spec_memoized() == Map::<i64, i64>::empty(),
            r.wf(),
    {
        Memoizer { calculation, memoized: HashMap::new() }
    }

    /// The calculation's result for `arg`: the kept one, or a new one, which
    /// is then kept.
    pub fn value(&mut self, arg: i64) -> (r: i64)
        requires
            old(self).wf(),
            !old(self).spec_memoized().contains_key(arg) ==> call_requires(
                old(self).spec_calculation(),
                (&arg,),
            ),
        ensures
            final(self).wf(),
            final(self).spec_calculation() == old(self).spec_calculation(),
            call_ensures(old(self).spec_calculation(), (&arg,), r),
            old(self).spec_memoized().contains_key(arg) ==> r == old(self).spec_memoized()[arg]
                && final(self).spec_memoized() == old(self).spec_memoized(),
            !old(self).spec_memoized().contains_key(arg) ==> final(self).spec_memoized()
                == old(self).spec_memoized().insert(arg, r),
    {
        match self.memoized.get(&arg) {
            Some(v) => *v,
            None => {
                let v = (self.calculation)(&arg);
                self.memoized.insert(arg, v);
                v
            },
        }
    }
}

} // verus!
