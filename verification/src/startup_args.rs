//! The startup command-line arguments: an ordered sequence of strings captured
//! once at process start, held in a guarded process-wide state and exposed
//! through a read-only query.
//!
//! The guard is modeled explicitly: beside the stored arguments the state
//! records whether the guard was poisoned (a prior panic while the lock was
//! held). The boundary layer that owns the real lock translates a poisoned
//! lock into this flag.

use vstd::prelude::*;

verus! {

/// The startup command-line arguments, in the order the operating system
/// supplied them.
pub struct CliArgs {
    pub args: Vec<String>,
}

impl View for CliArgs {
    type V = Seq<Seq<char>>;

    open spec fn view(&self) -> Seq<Seq<char>> {
        self.args.deep_view()
    }
}

impl CliArgs {
    /// Wraps an argument list captured at process start.
    pub fn new(args: Vec<String>) -> (r: Self)
        ensures
            r@ == args.deep_view(),
    {
        CliArgs { args }
    }
}

impl Clone for CliArgs {
    /// Copies the argument list; the copy holds the same strings.
    fn clone(&self) -> (r: Self)
        ensures
            r@ == self@,
    {
        let args = self.args.clone();
        proof {
            assert(args.deep_view() =~= self.args.deep_view());
        }
        CliArgs { args }
    }
}

/// The view of the guarded startup-argument state: the argument strings and
/// whether the guard is poisoned.
#[verifier::ext_equal]
pub struct StateView {
    pub args: Seq<Seq<char>>,
    pub poisoned: bool,
}

/// The state a process starts with: the captured arguments, guard intact.
pub open spec fn init_view(args: Seq<Seq<char>>) -> StateView {
    StateView { args, poisoned: false }
}

/// The guarded startup-argument state. Created once at process bootstrap and
/// read-only afterwards, except that the guard may become poisoned.
pub struct CliArgsState {
    pub args: CliArgs,
    pub poisoned: bool,
}

impl View for CliArgsState {
    type V = StateView;

    open spec fn view(&self) -> StateView {
        StateView { args: self.args@, poisoned: self.poisoned }
    }
}

impl CliArgsState {
    /// Captures the startup arguments; a fresh state is not poisoned.
    pub fn new(args: CliArgs) -> (s: Self)
        ensures
            s@ == init_view(args@),
    {
        CliArgsState { args, poisoned: false }
    }

    /// Marks the guard poisoned, as a panic while the lock was held would.
    /// The stored arguments are untouched.
    pub fn poison(&mut self)
        ensures
            final(self)@ == (StateView { poisoned: true, ..old(self)@ }),
    {
        self.poisoned = true;
    }
}

/// The message carried by the `StateUnavailable` failure.
pub open spec fn state_unavailable_message() -> Seq<char> {
    "state unavailable: the guard on the startup arguments was poisoned"@
}

/// What a read of the startup arguments yields for a given state view: the
/// stored arguments while the guard is intact, the `StateUnavailable` message
/// once it is poisoned — never both.
pub open spec fn read_result(v: StateView) -> Result<Seq<Seq<char>>, Seq<char>> {
    if v.poisoned {
        Err(state_unavailable_message())
    } else {
        Ok(v.args)
    }
}

/// Returns a copy of the startup arguments, or the `StateUnavailable` failure
/// if the guard was poisoned.
pub fn get_cli_args(state: &CliArgsState) -> (r: Result<CliArgs, String>)
    ensures
        match r {
            Ok(a) => read_result(state@) == Ok::<Seq<Seq<char>>, Seq<char>>(a@),
            Err(e) => read_result(state@) == Err::<Seq<Seq<char>>, Seq<char>>(e@),
        },
{
    if state.poisoned {
        Err(String::from_str("state unavailable: the guard on the startup arguments was poisoned"))
    } else {
        Ok(state.args.clone())
    }
}

/// Reading the startup arguments is idempotent: any two outcomes that
/// `get_cli_args` may return for the same state agree — both succeed with the
/// same argument strings, or both fail with the same message.
pub proof fn lemma_get_cli_args_idempotent(
    state: &CliArgsState,
    r1: Result<CliArgs, String>,
    r2: Result<CliArgs, String>,
)
    requires
        call_ensures(get_cli_args, (state,), r1),
        call_ensures(get_cli_args, (state,), r2),
    ensures
        r1 is Ok <==> r2 is Ok,
        r1 is Ok ==> r1->Ok_0@ == r2->Ok_0@,
        r1 is Err ==> r1->Err_0@ == r2->Err_0@,
{
}

/// The arguments captured at startup are what every later read returns: on a
/// freshly initialized state the read yields exactly the captured sequence.
pub proof fn lemma_read_after_init(args: Seq<Seq<char>>)
    ensures
        read_result(init_view(args)) == Ok::<Seq<Seq<char>>, Seq<char>>(args),
{
}

} // verus!
