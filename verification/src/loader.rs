//! Finding the native function that creates an environment.
//!
//! The function lives in a loader library. The library comes from a file,
//! where the caller names one, or else from an image that is part of the
//! program and is loaded from memory. The image is loaded at most once:
//! the first attempt decides, and what it gave, a module or an error, is
//! what every later request gets.

use once_cell::sync::OnceCell;
use vstd::prelude::*;

verus! {

/// The name under which the loader library exports the creating function.
pub fn entry_point_name() -> (name: &'static str)
    ensures
        name@ == "CreateCoreWebView2EnvironmentWithOptions"@,
{
    "CreateCoreWebView2EnvironmentWithOptions"
}

/// What an attempt to load a module came to: the module, where the loader
/// returned one, else the operating-system error code that it left.
pub open spec fn load_outcome(module: usize, os_error: i32) -> Result<usize, i32> {
    if module == 0 {
        Err(os_error)
    } else {
        Ok(module)
    }
}

#[verifier::external_type_specification]
#[verifier::external_body]
#[verifier::reject_recursive_types(T)]
pub struct ExOnceCell<T>(OnceCell<T>);

/// What a cell of load outcomes holds: nothing, or the one outcome that it
/// was initialized with.
pub uninterp spec fn cell_contents(cell: OnceCell<Result<usize, i32>>) -> Seq<Result<usize, i32>>;

/// Calls `OnceCell::new`: the new cell is empty.
#[verifier::external_body]
fn cell_new() -> (cell: OnceCell<Result<usize, i32>>)
    ensures
        cell_contents(cell).len() == 0,
{
    OnceCell::new()
}

/// Calls `OnceCell::get` and copies what it refers to: the value of an
/// initialized cell, and nothing for an empty one.
#[verifier::external_body]
fn cell_get(cell: &OnceCell<Result<usize, i32>>) -> (value: Option<Result<usize, i32>>)
    ensures
        value matches Some(v) ==> cell_contents(*cell) == seq![v],
        value is None ==> cell_contents(*cell).len() == 0,
{
    cell.get().copied()
}

/// Calls `OnceCell::get_or_init` and copies what it refers to. An
/// initialized cell gives its value and stays as it is, and `init` does not
/// run. An empty cell runs `init` once, is initialized with what `init`
/// returns, and gives that value.
#[verifier::external_body]
fn cell_get_or_init<I>(cell: &mut OnceCell<Result<usize, i32>>, init: I) -> (value: Result<
    usize,
    i32,
>) where I: FnOnce() -> Result<usize, i32>
    requires
        cell_contents(*old(cell)).len() == 0 ==> init.requires(()),
    ensures
        cell_contents(*final(cell)) == seq![value],
        cell_contents(*old(cell)).len() != 0 ==> cell_contents(*final(cell)) == cell_contents(
            *old(cell),
        ),
        cell_contents(*old(cell)).len() == 0 ==> init.ensures((), value),
{
    *cell.get_or_init(init)
}

/// Remembers what loading the in-memory image came to.
#[derive(Debug)]
pub struct LoaderCache {
    outcome: OnceCell<Result<usize, i32>>,
}

impl View for LoaderCache {
    type V = Option<Result<usize, i32>>;

    /// What the first attempt to load gave, if there was one.
    closed spec fn view(&self) -> Option<Result<usize, i32>> {
        if cell_contents(self.outcome).len() == 0 {
            None
        } else {
            Some(cell_contents(self.outcome)[0])
        }
    }
}

impl LoaderCache {
    /// A cache that has seen no attempt yet.
    pub fn new() -> (cache: Self)
        ensures
            cache@ is None,
    {
        LoaderCache { outcome: cell_new() }
    }

    /// What the first attempt gave, if there was one.
    pub fn get(&self) -> (outcome: Option<Result<usize, i32>>)
        ensures
            outcome == self@,
    {
        cell_get(&self.outcome)
    }

    /// Gives the outcome of loading the image, loading it first if no
    /// attempt was made before. `load` performs the attempt and returns the
    /// module, null on failure, with the operating system's last error. It
    /// runs only when the cache is empty; what it returns is kept, failure
    /// included, and never replaced.
    pub fn get_or_load<L>(&mut self, load: L) -> (outcome: Result<usize, i32>) where
        L: FnOnce() -> (usize, i32),

        requires
            old(self)@ is None ==> load.requires(()),
        ensures
            final(self)@ == Some(outcome),
            final(self)@ == cache_after(old(self)@, outcome),
            old(self)@ matches Some(first) ==> outcome == first,
            old(self)@ is None ==> exists|module: usize, os_error: i32|
                load.ensures((), (module, os_error)) && outcome == load_outcome(module, os_error),
    {
        let attempt = move || -> (outcome: Result<usize, i32>)
            requires
                load.requires(()),
            ensures
                exists|module: usize, os_error: i32|
                    load.ensures((), (module, os_error)) && outcome == load_outcome(
                        module,
                        os_error,
                    ),
            {
                let loaded = load();
                let module = loaded.0;
                let os_error = loaded.1;
                let outcome = if module == 0 {
                    Err(os_error)
                } else {
                    Ok(module)
                };
                assert(load.ensures((), (module, os_error)) && outcome == load_outcome(
                    module,
                    os_error,
                ));
                outcome
            };
        cell_get_or_init(&mut self.outcome, attempt)
    }
}

/// The state of a cache after a request that found it in `before`, where an
/// attempt to load, if one is made, gives `attempt`.
pub open spec fn cache_after(before: Option<Result<usize, i32>>, attempt: Result<usize, i32>)
    -> Option<Result<usize, i32>> {
    match before {
        Some(first) => Some(first),
        None => Some(attempt),
    }
}

/// The state of a cache after a run of requests, of which the one at
/// position `i` would get `attempts[i]` if it had to load.
pub open spec fn cache_after_all(
    before: Option<Result<usize, i32>>,
    attempts: Seq<Result<usize, i32>>,
) -> Option<Result<usize, i32>>
    decreases attempts.len(),
{
    if attempts.len() == 0 {
        before
    } else {
        cache_after(cache_after_all(before, attempts.drop_last()), attempts.last())
    }
}

/// The number of attempts to load that a run of requests makes: a request
/// loads exactly when it finds the cache empty.
pub open spec fn loads_made(
    before: Option<Result<usize, i32>>,
    attempts: Seq<Result<usize, i32>>,
) -> nat
    decreases attempts.len(),
{
    if attempts.len() == 0 {
        0
    } else {
        let earlier = attempts.drop_last();
        if cache_after_all(before, earlier) is None {
            loads_made(before, earlier) + 1
        } else {
            loads_made(before, earlier)
        }
    }
}

/// After any request the cache holds an outcome: the one that it held
/// before the first request, or else what the first attempt gave.
pub proof fn lemma_cache_after_requests(
    before: Option<Result<usize, i32>>,
    attempts: Seq<Result<usize, i32>>,
)
    requires
        attempts.len() > 0,
    ensures
        cache_after_all(before, attempts) == cache_after(before, attempts[0]),
    decreases attempts.len(),
{
    let earlier = attempts.drop_last();
    if earlier.len() > 0 {
        lemma_cache_after_requests(before, earlier);
        assert(earlier[0] == attempts[0]);
    } else {
        assert(cache_after_all(before, earlier) == before);
        assert(attempts.last() == attempts[0]);
    }
}

/// However many requests are made and whatever their attempts would give,
/// the image is loaded at most once: once by the first request if the cache
/// was empty, and never if it was not. Every request gets the same outcome:
/// the one that the cache held before, or else that of the first attempt.
pub proof fn lemma_first_attempt_decides(
    before: Option<Result<usize, i32>>,
    attempts: Seq<Result<usize, i32>>,
)
    requires
        attempts.len() > 0,
    ensures
        loads_made(before, attempts) <= 1,
        loads_made(before, attempts) == 1 <==> before is None,
        forall|n: int|
            0 < n <= attempts.len() ==> #[trigger] cache_after_all(before, attempts.take(n))
                == cache_after(before, attempts[0]),
    decreases attempts.len(),
{
    assert forall|n: int| 0 < n <= attempts.len() implies #[trigger] cache_after_all(
        before,
        attempts.take(n),
    ) == cache_after(before, attempts[0]) by {
        lemma_cache_after_requests(before, attempts.take(n));
    }
    let earlier = attempts.drop_last();
    if earlier.len() > 0 {
        lemma_first_attempt_decides(before, earlier);
        lemma_cache_after_requests(before, earlier);
        assert(cache_after_all(before, earlier) is Some);
        assert(loads_made(before, attempts) == loads_made(before, earlier));
    } else {
        assert(cache_after_all(before, earlier) == before);
        assert(loads_made(before, earlier) == 0);
    }
}

} // verus!
