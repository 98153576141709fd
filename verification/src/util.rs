//! The creation engine: candidate names and the bounded retry loop that
//! files, directories and caller-defined resources share.

use vstd::prelude::*;
use crate::error::Error;
use crate::NUM_RETRIES;

verus! {

/// The number of failed attempts after which the generator is seeded anew
/// from the operating system.
pub const RESEED_AFTER: u32 = 3;

/// The alphabet of the random part of a name: the 62 ASCII letters and
/// digits.
pub open spec fn is_alphanumeric(c: char) -> bool {
    ('a' <= c && c <= 'z') || ('A' <= c && c <= 'Z') || ('0' <= c && c <= '9')
}

/// What one draw from the generator in state `seed` gives: the character
/// drawn and the state that the generator is left in. The generator computes
/// both from its state alone, in the arithmetic of the pointer width that
/// the crate is built for.
pub uninterp spec fn alphanumeric_step(seed: u64) -> (char, u64);

/// What joining `name` to the directory `base` gives, by the path rules of
/// the platform that the crate is built for.
pub uninterp spec fn joined(base: Seq<char>, name: Seq<char>) -> Seq<char>;

/// Whether `path` is absolute, by the path rules of the platform that the
/// crate is built for.
pub uninterp spec fn is_absolute(path: Seq<char>) -> bool;

/// Draws one character with `fastrand::Rng::alphanumeric` from a generator
/// set to `seed`, and reads the generator's state back. The generator is a
/// function of its state alone, so the pair has a name; of the character
/// the contract claims what the method documents, a letter or a digit.
#[verifier::external_body]
fn next_alphanumeric(seed: u64) -> (r: (char, u64))
    ensures
        r == alphanumeric_step(seed),
        is_alphanumeric(r.0),
{
    let mut rng = fastrand::Rng::with_seed(seed);
    let c = rng.alphanumeric();
    (c, rng.get_seed())
}

/// The state of a generator that `fastrand::Rng::new` forked from the
/// thread's own. Nothing is claimed of it.
#[verifier::external_body]
fn fresh_seed() -> u64 {
    fastrand::Rng::new().get_seed()
}

/// Eight bytes from the operating system's entropy source, by
/// `getrandom::u64`, or `None` where the source fails. Nothing is claimed
/// of them.
#[verifier::external_body]
fn os_entropy() -> Option<u64> {
    getrandom::u64().ok()
}

/// Appends `c` to `s` with `String::push`.
#[verifier::external_body]
fn push_char(s: &mut String, c: char)
    ensures
        final(s)@ == old(s)@.push(c),
{
    s.push(c)
}

/// Joins `name` to `base` with `std::path::Path::join`. Both are UTF-8, so
/// the joined path is too and converts to a `String` without loss.
#[verifier::external_body]
fn join_path(base: &str, name: &str) -> (path: String)
    ensures
        path@ == joined(base@, name@),
{
    std::path::Path::new(base).join(name).to_string_lossy().into_owned()
}

/// Asks `std::path::Path::is_absolute` whether `path` is absolute.
#[verifier::external_body]
fn path_is_absolute(path: &str) -> (b: bool)
    ensures
        b == is_absolute(path@),
{
    std::path::Path::new(path).is_absolute()
}

/// The directory `dir` as an absolute path, given what asking for the
/// current directory gave: `dir` itself where it is absolute, else `dir`
/// joined to the current directory, or the failure to find that one.
///
/// What is created is owned under an absolute path, so that a later change
/// of the current directory does not change which entry is deleted.
pub fn absolute(dir: &str, current_dir: Result<String, Error>) -> (res: Result<String, Error>)
    ensures
        is_absolute(dir@) ==> res is Ok && res->Ok_0@ == dir@,
        !is_absolute(dir@) ==> match current_dir {
            Ok(current) => res is Ok && res->Ok_0@ == joined(current@, dir@),
            Err(e) => res == Err::<String, Error>(e),
        },
{
    if path_is_absolute(dir) {
        Ok(String::from_str(dir))
    } else {
        match current_dir {
            Ok(current) => Ok(join_path(current.as_str(), dir)),
            Err(e) => Err(e),
        }
    }
}

/// The first `n` characters that a generator started in state `seed` draws.
pub open spec fn random_chars(seed: u64, n: nat) -> Seq<char>
    decreases n,
{
    if n == 0 {
        Seq::empty()
    } else {
        random_chars(seed, (n - 1) as nat).push(
            alphanumeric_step(seed_after(seed, (n - 1) as nat)).0,
        )
    }
}

/// The state of a generator started in state `seed` after `n` draws.
pub open spec fn seed_after(seed: u64, n: nat) -> u64
    decreases n,
{
    if n == 0 {
        seed
    } else {
        alphanumeric_step(seed_after(seed, (n - 1) as nat)).1
    }
}

/// A candidate name: the prefix, `n` random characters, the suffix.
pub open spec fn candidate_name(prefix: Seq<char>, suffix: Seq<char>, seed: u64, n: nat) -> Seq<
    char,
> {
    prefix + random_chars(seed, n) + suffix
}

/// Builds the candidate name that a generator in state `seed` gives, and
/// returns it with the generator's next state.
pub fn tmpname(seed: u64, prefix: &str, suffix: &str, rand_len: usize) -> (r: (String, u64))
    ensures
        r.0@ == candidate_name(prefix@, suffix@, seed, rand_len as nat),
        r.1 == seed_after(seed, rand_len as nat),
        r.0@.len() == prefix@.len() + rand_len + suffix@.len(),
        forall|i: int|
            prefix@.len() <= i < prefix@.len() + rand_len ==> is_alphanumeric(#[trigger] r.0@[i]),
{
    let mut buf = String::from_str(prefix);
    let mut state: u64 = seed;
    let mut drawn: usize = 0;
    while drawn < rand_len
        invariant
            drawn <= rand_len,
            buf@ == prefix@ + random_chars(seed, drawn as nat),
            random_chars(seed, drawn as nat).len() == drawn,
            state == seed_after(seed, drawn as nat),
            forall|i: int|
                prefix@.len() <= i < prefix@.len() + drawn ==> is_alphanumeric(#[trigger] buf@[i]),
        decreases rand_len - drawn,
    {
        let (c, next) = next_alphanumeric(state);
        push_char(&mut buf, c);
        state = next;
        drawn = drawn + 1;
    }
    buf.append(suffix);
    (buf, state)
}

/// What the engine does after one attempt.
#[derive(Debug, PartialEq, Eq)]
pub enum Verdict<R> {
    /// The attempt succeeded: the creation ends with this resource.
    Created(R),
    /// The name was in use and attempts are left: another name is tried.
    Retry,
    /// The creation ends with this failure.
    Failed(Error),
}

/// The engine's rule. A success ends the creation. A collision is answered
/// with another name, unless this was the last attempt allowed, which ends
/// the creation as exhausted. Any other failure ends it at once, unchanged.
pub open spec fn spec_judge<R>(attempt: nat, outcome: Result<R, Error>) -> Verdict<R> {
    match outcome {
        Ok(r) => Verdict::Created(r),
        Err(e) => if e.is_collision() {
            if attempt + 1 < NUM_RETRIES {
                Verdict::Retry
            } else {
                Verdict::Failed(Error::exhausted())
            }
        } else {
            Verdict::Failed(e)
        },
    }
}

/// Decides what follows the outcome of attempt number `attempt`, counted
/// from zero.
pub fn judge<R>(attempt: u32, outcome: Result<R, Error>) -> (v: Verdict<R>)
    ensures
        v == spec_judge(attempt as nat, outcome),
{
    match outcome {
        Ok(r) => Verdict::Created(r),
        Err(e) => {
            if e.is_collision() {
                if attempt < NUM_RETRIES - 1 {
                    Verdict::Retry
                } else {
                    Verdict::Failed(Error::exhausted())
                }
            } else {
                Verdict::Failed(e)
            }
        },
    }
}

/// Everything that fixes the names one creation tries: where and how they
/// are built, the state that the generator starts in, and the state that
/// the operating system supplied for the reseeding, if it did.
pub struct Trial {
    pub base: Seq<char>,
    pub prefix: Seq<char>,
    pub suffix: Seq<char>,
    pub random_len: nat,
    pub seed: u64,
    pub reseed: Option<u64>,
}

impl Trial {
    /// The generator's state when the name of attempt `j` is drawn. Each
    /// attempt goes on where the one before stopped, but for attempt
    /// `RESEED_AFTER`, which starts from the operating system's state
    /// where there is one.
    pub open spec fn seed_at(self, j: nat) -> u64
        decreases j,
    {
        if j == 0 {
            self.seed
        } else {
            let carried = seed_after(self.seed_at((j - 1) as nat), self.random_len);
            if j == RESEED_AFTER && self.reseed is Some {
                self.reseed->Some_0
            } else {
                carried
            }
        }
    }

    /// The random characters in the name of attempt `j`.
    pub open spec fn random_at(self, j: nat) -> Seq<char> {
        random_chars(self.seed_at(j), self.random_len)
    }

    /// The random part of the name of attempt `j` has the length asked for
    /// and holds letters and digits only.
    pub open spec fn alphanumeric_at(self, j: nat) -> bool {
        &&& self.random_at(j).len() == self.random_len
        &&& forall|i: int|
            0 <= i < self.random_len ==> is_alphanumeric(#[trigger] self.random_at(j)[i])
    }

    /// The name of attempt `j`.
    pub open spec fn name_at(self, j: nat) -> Seq<char> {
        candidate_name(self.prefix, self.suffix, self.seed_at(j), self.random_len)
    }

    /// The path that attempt `j` is made on.
    pub open spec fn path_at(self, j: nat) -> Seq<char> {
        joined(self.base, self.name_at(j))
    }
}

/// `r` is an outcome that the attempt operation `f` can give on `path`.
pub open spec fn attempt_outcome<R, F: Fn(String) -> Result<R, Error>>(
    f: F,
    path: Seq<char>,
    r: Result<R, Error>,
) -> bool {
    exists|p: String| p@ == path && #[trigger] f.ensures((p,), r)
}

/// The outcomes of `f`, as a relation between a path and a result.
pub open spec fn outcomes_of<R, F: Fn(String) -> Result<R, Error>>(f: F) -> spec_fn(
    Seq<char>,
    Result<R, Error>,
) -> bool {
    |path: Seq<char>, r: Result<R, Error>| attempt_outcome(f, path, r)
}

/// `outcomes` are results that the attempt operation, described by the
/// relation `gives`, gave attempt by attempt on the paths of `t`.
pub open spec fn produced_by<R>(
    gives: spec_fn(Seq<char>, Result<R, Error>) -> bool,
    t: Trial,
    outcomes: Seq<Result<R, Error>>,
) -> bool {
    forall|j: int| 0 <= j < outcomes.len() ==> gives(t.path_at(j as nat), #[trigger] outcomes[j])
}

/// `res` is what the engine's rule makes of the attempts `outcomes`: every
/// attempt but the last was answered with another name, and the last one
/// ended the creation with `res`.
pub open spec fn follows_policy<R>(outcomes: Seq<Result<R, Error>>, res: Result<R, Error>) -> bool {
    &&& 1 <= outcomes.len() <= NUM_RETRIES
    &&& forall|j: int|
        0 <= j < outcomes.len() - 1 ==> spec_judge(j as nat, #[trigger] outcomes[j]) is Retry
    &&& match spec_judge((outcomes.len() - 1) as nat, outcomes.last()) {
        Verdict::Created(r) => res == Ok::<R, Error>(r),
        Verdict::Failed(e) => res == Err::<R, Error>(e),
        Verdict::Retry => false,
    }
}

/// The names of the first `attempts` attempts of `t` are candidate names:
/// between prefix and suffix stand letters and digits, as many as asked for.
pub open spec fn names_drawn(t: Trial, attempts: nat) -> bool {
    forall|j: nat| j < attempts ==> #[trigger] t.alphanumeric_at(j)
}

/// A run of the engine: attempts on the paths of `t`, all under candidate
/// names, whose outcomes the attempt operation gave and the engine's rule
/// answered, ending in `res`.
pub open spec fn is_run<R>(
    gives: spec_fn(Seq<char>, Result<R, Error>) -> bool,
    t: Trial,
    outcomes: Seq<Result<R, Error>>,
    res: Result<R, Error>,
) -> bool {
    &&& names_drawn(t, outcomes.len())
    &&& produced_by(gives, t, outcomes)
    &&& follows_policy(outcomes, res)
}

/// `reseed` is an answer of the operating system's entropy source.
pub closed spec fn from_system(reseed: Option<u64>) -> bool {
    call_ensures(os_entropy, (), reseed)
}

/// What the operating system had to do with the reseed value of a run of
/// `attempts` attempts: a run of more than `RESEED_AFTER` attempts asked its
/// entropy source, once three names had collided, and `reseed` is what it
/// answered; a shorter run has no reseed value.
pub open spec fn reseeded_by_system(attempts: nat, reseed: Option<u64>) -> bool {
    if attempts > RESEED_AFTER {
        from_system(reseed)
    } else {
        reseed is None
    }
}

/// Some run of the engine in `base`, with names built from `prefix`,
/// `suffix` and `random_len` random characters and reseeded by the
/// operating system, ends in `res`.
pub open spec fn created_by_run<R>(
    gives: spec_fn(Seq<char>, Result<R, Error>) -> bool,
    base: Seq<char>,
    prefix: Seq<char>,
    suffix: Seq<char>,
    random_len: nat,
    res: Result<R, Error>,
) -> bool {
    exists|seed: u64, reseed: Option<u64>, outcomes: Seq<Result<R, Error>>|
        reseeded_by_system(outcomes.len(), reseed) && #[trigger] is_run(
            gives,
            (Trial { base, prefix, suffix, random_len, seed, reseed }),
            outcomes,
            res,
        )
}

/// A run stays a run under any relation that holds wherever `gives` does.
pub proof fn lemma_run_weakens<R>(
    gives: spec_fn(Seq<char>, Result<R, Error>) -> bool,
    wider: spec_fn(Seq<char>, Result<R, Error>) -> bool,
    t: Trial,
    outcomes: Seq<Result<R, Error>>,
    res: Result<R, Error>,
)
    requires
        is_run(gives, t, outcomes, res),
        forall|path: Seq<char>, r: Result<R, Error>| #[trigger] gives(path, r) ==> wider(path, r),
    ensures
        is_run(wider, t, outcomes, res),
{
}

/// A creation by some run stays one under any relation that holds wherever
/// `gives` does.
pub proof fn lemma_created_weakens<R>(
    gives: spec_fn(Seq<char>, Result<R, Error>) -> bool,
    wider: spec_fn(Seq<char>, Result<R, Error>) -> bool,
    base: Seq<char>,
    prefix: Seq<char>,
    suffix: Seq<char>,
    random_len: nat,
    res: Result<R, Error>,
)
    requires
        created_by_run(gives, base, prefix, suffix, random_len, res),
        forall|path: Seq<char>, r: Result<R, Error>| #[trigger] gives(path, r) ==> wider(path, r),
    ensures
        created_by_run(wider, base, prefix, suffix, random_len, res),
{
    let (seed, reseed, outcomes) = choose|
        seed: u64,
        reseed: Option<u64>,
        outcomes: Seq<Result<R, Error>>,
    |
        reseeded_by_system(outcomes.len(), reseed) && #[trigger] is_run(
            gives,
            (Trial { base, prefix, suffix, random_len, seed, reseed }),
            outcomes,
            res,
        );
    let t = Trial { base, prefix, suffix, random_len, seed, reseed };
    lemma_run_weakens(gives, wider, t, outcomes, res);
}

/// The attempt after `RESEED_AFTER` collisions draws its name from the
/// reseed value, where there is one, and from the state that the generator
/// was left in, where there is none.
pub proof fn lemma_seed_at_reseed(t: Trial)
    ensures
        t.reseed is Some ==> t.seed_at(RESEED_AFTER as nat) == t.reseed->Some_0,
        t.reseed is None ==> t.seed_at(RESEED_AFTER as nat) == seed_after(
            t.seed_at((RESEED_AFTER - 1) as nat),
            t.random_len,
        ),
{
}

/// The names of the attempts before the reseeding depend on the starting
/// state alone, not on the reseed value.
pub proof fn lemma_seed_before_reseed(t: Trial, u: Trial, j: nat)
    requires
        j < RESEED_AFTER,
        t.seed == u.seed,
        t.random_len == u.random_len,
    ensures
        t.seed_at(j) == u.seed_at(j),
    decreases j,
{
    if j > 0 {
        lemma_seed_before_reseed(t, u, (j - 1) as nat);
    }
}

/// What the entropy source had to do with the reseed value of a run of
/// `attempts` attempts: a run of more than `RESEED_AFTER` attempts asked the
/// source, once three names had collided, and `reseed` is what it answered;
/// a shorter run has no reseed value.
pub open spec fn reseed_drawn<E: Fn() -> Option<u64>>(
    entropy: E,
    attempts: nat,
    reseed: Option<u64>,
) -> bool {
    if attempts > RESEED_AFTER {
        entropy.ensures((), reseed)
    } else {
        reseed is None
    }
}

/// Creates a resource under a fresh name in `base`, the generator starting
/// in state `seed` and `entropy` supplying the state to reseed it with.
///
/// Each attempt builds a candidate name, joins it to `base` and hands the
/// path to `f`. A success ends the creation. A failure of a collision class
/// is answered with a new name, up to `NUM_RETRIES` attempts in all. After
/// `RESEED_AFTER` collisions `entropy` is asked, once, and the generator
/// goes on from the state it answers with, or from where it stood if the
/// answer is `None`. Any other failure is returned at once.
///
/// `f` alone is responsible for creating the entry atomically with the test
/// for its existence.
pub fn create_with_entropy<R, E: Fn() -> Option<u64>, F: Fn(String) -> Result<R, Error>>(
    seed: u64,
    base: &str,
    prefix: &str,
    suffix: &str,
    random_len: usize,
    entropy: E,
    f: F,
) -> (res: Result<R, Error>)
    requires
        entropy.requires(()),
        forall|p: String| f.requires((p,)),
    ensures
        exists|reseed: Option<u64>, outcomes: Seq<Result<R, Error>>|
            reseed_drawn(entropy, outcomes.len(), reseed) && #[trigger] is_run(
                outcomes_of(f),
                (Trial {
                    base: base@,
                    prefix: prefix@,
                    suffix: suffix@,
                    random_len: random_len as nat,
                    seed,
                    reseed,
                }),
                outcomes,
                res,
            ),
{
    let ghost mut trial = Trial {
        base: base@,
        prefix: prefix@,
        suffix: suffix@,
        random_len: random_len as nat,
        seed,
        reseed: None,
    };
    let ghost mut outcomes: Seq<Result<R, Error>> = Seq::empty();
    let mut state: u64 = seed;
    let mut attempt: u32 = 0;
    loop
        invariant
            entropy.requires(()),
            forall|p: String| f.requires((p,)),
            attempt < NUM_RETRIES,
            outcomes.len() == attempt,
            trial.base == base@,
            trial.prefix == prefix@,
            trial.suffix == suffix@,
            trial.random_len == random_len as nat,
            trial.seed == seed,
            reseed_drawn(entropy, attempt as nat, trial.reseed),
            state == trial.seed_at(attempt as nat),
            names_drawn(trial, outcomes.len()),
            produced_by(outcomes_of(f), trial, outcomes),
            forall|j: int|
                0 <= j < outcomes.len() ==> spec_judge(j as nat, #[trigger] outcomes[j]) is Retry,
        decreases NUM_RETRIES - attempt,
    {
        if attempt == RESEED_AFTER {
            let answer = entropy();
            proof {
                let renewed = Trial { reseed: answer, ..trial };
                assert forall|j: int| 0 <= j < outcomes.len() implies outcomes_of(f)(
                    renewed.path_at(j as nat),
                    #[trigger] outcomes[j],
                ) by {
                    lemma_seed_before_reseed(trial, renewed, j as nat);
                }
                assert forall|j: nat| j < outcomes.len() implies #[trigger] renewed.alphanumeric_at(
                    j,
                ) by {
                    lemma_seed_before_reseed(trial, renewed, j);
                    assert(trial.alphanumeric_at(j));
                }
                trial = renewed;
            }
            match answer {
                Some(s) => {
                    state = s;
                },
                None => {},
            }
        }
        let (name, next) = tmpname(state, prefix, suffix, random_len);
        let path = join_path(base, name.as_str());
        let outcome = f(path);
        proof {
            let drawn = trial.random_at(attempt as nat);
            assert forall|i: int| 0 <= i < random_len implies is_alphanumeric(
                #[trigger] drawn[i],
            ) by {
                assert(name@[prefix@.len() + i] == drawn[i]);
            }
            outcomes = outcomes.push(outcome);
        }
        match judge(attempt, outcome) {
            Verdict::Created(r) => {
                proof {
                    assert(is_run(outcomes_of(f), trial, outcomes, Ok::<R, Error>(r)));
                }
                return Ok(r);
            },
            Verdict::Failed(e) => {
                proof {
                    assert(is_run(outcomes_of(f), trial, outcomes, Err::<R, Error>(e)));
                }
                return Err(e);
            },
            Verdict::Retry => {
                state = next;
                attempt = attempt + 1;
            },
        }
    }
}

/// Creates a resource under a fresh name in `base`, the generator starting
/// in state `seed` and the operating system supplying the state to reseed
/// it with. See [`create_with_entropy`] for the algorithm.
pub fn create_from_seed<R, F: Fn(String) -> Result<R, Error>>(
    seed: u64,
    base: &str,
    prefix: &str,
    suffix: &str,
    random_len: usize,
    f: F,
) -> (res: Result<R, Error>)
    requires
        forall|p: String| f.requires((p,)),
    ensures
        exists|reseed: Option<u64>, outcomes: Seq<Result<R, Error>>|
            reseeded_by_system(outcomes.len(), reseed) && #[trigger] is_run(
                outcomes_of(f),
                (Trial {
                    base: base@,
                    prefix: prefix@,
                    suffix: suffix@,
                    random_len: random_len as nat,
                    seed,
                    reseed,
                }),
                outcomes,
                res,
            ),
{
    create_with_entropy(seed, base, prefix, suffix, random_len, os_entropy, f)
}

/// Creates a resource under a fresh name in `base`, with a generator forked
/// from the thread's own. See [`create_from_seed`] for the algorithm.
pub fn create_helper<R, F: Fn(String) -> Result<R, Error>>(
    base: &str,
    prefix: &str,
    suffix: &str,
    random_len: usize,
    f: F,
) -> (res: Result<R, Error>)
    requires
        forall|p: String| f.requires((p,)),
    ensures
        created_by_run(outcomes_of(f), base@, prefix@, suffix@, random_len as nat, res),
{
    create_from_seed(fresh_seed(), base, prefix, suffix, random_len, f)
}

/// Where every attempt fails with a collision, the creation makes exactly
/// `NUM_RETRIES` attempts and ends as exhausted: it neither goes on for
/// ever nor reports the collision itself.
pub proof fn lemma_collisions_exhaust<R>(outcomes: Seq<Result<R, Error>>, res: Result<R, Error>)
    requires
        follows_policy(outcomes, res),
        forall|j: int|
            0 <= j < outcomes.len() ==> (#[trigger] outcomes[j]) is Err
                && outcomes[j]->Err_0.is_collision(),
    ensures
        outcomes.len() == NUM_RETRIES,
        res == Err::<R, Error>(Error::exhausted()),
{
    let last = outcomes.len() - 1;
    assert(outcomes[last] is Err && outcomes[last]->Err_0.is_collision());
}

/// A collision never ends a creation before the last attempt allowed: every
/// attempt but the last failed with a collision and was retried in silence;
/// a success is the last attempt's own; and a failure is either the last
/// attempt's own, of no collision class, or exhaustion after `NUM_RETRIES`
/// collisions.
pub proof fn lemma_run_shape<R>(outcomes: Seq<Result<R, Error>>, res: Result<R, Error>)
    requires
        follows_policy(outcomes, res),
    ensures
        forall|j: int|
            0 <= j < outcomes.len() - 1 ==> (#[trigger] outcomes[j]) is Err
                && outcomes[j]->Err_0.is_collision(),
        res is Ok ==> outcomes.last() == res,
        res is Err ==> {
            ||| outcomes.last() == res && !res->Err_0.is_collision()
            ||| {
                &&& res == Err::<R, Error>(Error::exhausted())
                &&& outcomes.len() == NUM_RETRIES
                &&& outcomes.last() is Err
                &&& outcomes.last()->Err_0.is_collision()
            }
        },
{
}

/// With an attempt operation that can only fail with a collision, every
/// creation ends as exhausted.
pub proof fn lemma_colliding_operation_exhausts<R>(
    gives: spec_fn(Seq<char>, Result<R, Error>) -> bool,
    base: Seq<char>,
    prefix: Seq<char>,
    suffix: Seq<char>,
    random_len: nat,
    res: Result<R, Error>,
)
    requires
        created_by_run(gives, base, prefix, suffix, random_len, res),
        forall|path: Seq<char>, r: Result<R, Error>| #[trigger]
            gives(path, r) ==> r is Err && r->Err_0.is_collision(),
    ensures
        res == Err::<R, Error>(Error::exhausted()),
{
    let (seed, reseed, outcomes) = choose|
        seed: u64,
        reseed: Option<u64>,
        outcomes: Seq<Result<R, Error>>,
    |
        reseeded_by_system(outcomes.len(), reseed) && #[trigger] is_run(
            gives,
            (Trial { base, prefix, suffix, random_len, seed, reseed }),
            outcomes,
            res,
        );
    let t = Trial { base, prefix, suffix, random_len, seed, reseed };
    assert forall|j: int| 0 <= j < outcomes.len() implies (#[trigger] outcomes[j]) is Err
        && outcomes[j]->Err_0.is_collision() by {
        assert(gives(t.path_at(j as nat), outcomes[j]));
    }
    lemma_collisions_exhaust(outcomes, res);
}

/// With an attempt operation that fails on every path of `taken`, what a
/// creation returns was created on a path outside `taken`. So creations that
/// follow one another through an exclusive primitive, each seeing the
/// entries of those before, never return one path twice.
pub proof fn lemma_created_on_free_path<R>(
    gives: spec_fn(Seq<char>, Result<R, Error>) -> bool,
    taken: Set<Seq<char>>,
    base: Seq<char>,
    prefix: Seq<char>,
    suffix: Seq<char>,
    random_len: nat,
    res: Result<R, Error>,
)
    requires
        created_by_run(gives, base, prefix, suffix, random_len, res),
        res is Ok,
        forall|path: Seq<char>, r: Result<R, Error>| #[trigger]
            gives(path, r) && taken.contains(path) ==> r is Err,
    ensures
        exists|path: Seq<char>| !taken.contains(path) && #[trigger] gives(path, res),
{
    let (seed, reseed, outcomes) = choose|
        seed: u64,
        reseed: Option<u64>,
        outcomes: Seq<Result<R, Error>>,
    |
        reseeded_by_system(outcomes.len(), reseed) && #[trigger] is_run(
            gives,
            (Trial { base, prefix, suffix, random_len, seed, reseed }),
            outcomes,
            res,
        );
    let t = Trial { base, prefix, suffix, random_len, seed, reseed };
    let last = outcomes.len() - 1;
    lemma_run_shape(outcomes, res);
    assert(gives(t.path_at(last as nat), outcomes[last]));
}

} // verus!
