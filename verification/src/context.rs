//! The interpreter-context model: the capability registry, the imported
//! environment snapshot, and the configuration flags one invocation runs
//! under.
//!
//! The embedding interpreter registers its own capability groups in the
//! host; the model tracks what the context builder itself decides: the
//! three custom built-ins (with `exit` deliberately overriding any earlier
//! command of that name), the batch flags, and how symbols declared by
//! parsing are merged in.

use vstd::prelude::*;
use crate::registry::CapabilityRegistry;

verus! {

/// The invocation-scoped interpreter state the pipeline decides over.
#[derive(Debug, PartialEq)]
pub struct InterpreterContext {
    pub capabilities: CapabilityRegistry,
    pub env_vars: Vec<(String, String)>,
    pub is_interactive: bool,
    pub is_login: bool,
    pub history_enabled: bool,
}

/// Merges symbols into a capability mapping from the front of the list,
/// stopping at the first name already taken: the mapping as merged so
/// far, and the colliding name if one was hit.
pub open spec fn spec_merge(m: Map<Seq<char>, u64>, s: Seq<(String, u64)>) -> (Map<
    Seq<char>,
    u64,
>, Option<String>)
    decreases s.len(),
{
    if s.len() == 0 {
        (m, None::<String>)
    } else if m.contains_key(s[0].0@) {
        (m, Some(s[0].0))
    } else {
        spec_merge(m.insert(s[0].0@, s[0].1), s.drop_first())
    }
}

/// What a freshly built context offers: exactly the three custom
/// built-ins over an otherwise empty registry, and every batch flag off.
pub open spec fn built_context(
    c: InterpreterContext,
    highlight_handler: u64,
    print_handler: u64,
    exit_handler: u64,
) -> bool {
    &&& c.capabilities.as_map() == Map::<Seq<char>, u64>::empty().insert(
        "nu-highlight"@,
        highlight_handler,
    ).insert("print"@, print_handler).insert("exit"@, exit_handler)
    &&& c.env_vars@ == Seq::<(String, String)>::empty()
    &&& !c.is_interactive
    &&& !c.is_login
    &&& !c.history_enabled
}

impl InterpreterContext {
    /// A fresh context: no capabilities, no environment, the defaults of
    /// an interactive session.
    pub fn new() -> (r: InterpreterContext)
        ensures
            r.capabilities.as_map() == Map::<Seq<char>, u64>::empty(),
            r.env_vars@ == Seq::<(String, String)>::empty(),
            !r.is_interactive,
            !r.is_login,
            r.history_enabled,
    {
        let r = InterpreterContext {
            capabilities: CapabilityRegistry::new(),
            env_vars: Vec::new(),
            is_interactive: false,
            is_login: false,
            history_enabled: true,
        };
        proof {
            assert(r.env_vars@ =~= Seq::<(String, String)>::empty());
        }
        r
    }

    /// Installs the three custom built-ins. Each is an explicit override:
    /// in particular the replacement `exit` takes the place of any
    /// earlier command of that name.
    pub fn install_custom_builtins(
        &mut self,
        highlight_handler: u64,
        print_handler: u64,
        exit_handler: u64,
    )
        ensures
            final(self).capabilities.as_map() == old(self).capabilities.as_map().insert(
                "nu-highlight"@,
                highlight_handler,
            ).insert("print"@, print_handler).insert("exit"@, exit_handler),
            final(self).env_vars == old(self).env_vars,
            final(self).is_interactive == old(self).is_interactive,
            final(self).is_login == old(self).is_login,
            final(self).history_enabled == old(self).history_enabled,
    {
        self.capabilities.register_override(String::from_str("nu-highlight"), highlight_handler);
        self.capabilities.register_override(String::from_str("print"), print_handler);
        self.capabilities.register_override(String::from_str("exit"), exit_handler);
    }

    /// Turns the interactive, login and history flags off for one-shot
    /// batch use.
    pub fn configure_batch(&mut self)
        ensures
            final(self).capabilities == old(self).capabilities,
            final(self).env_vars == old(self).env_vars,
            !final(self).is_interactive,
            !final(self).is_login,
            !final(self).history_enabled,
    {
        self.is_interactive = false;
        self.is_login = false;
        self.history_enabled = false;
    }

    /// Imports an environment snapshot verbatim, after anything imported
    /// before.
    pub fn import_env(&mut self, vars: Vec<(String, String)>)
        ensures
            final(self).env_vars@ == old(self).env_vars@ + vars@,
            final(self).capabilities == old(self).capabilities,
            final(self).is_interactive == old(self).is_interactive,
            final(self).is_login == old(self).is_login,
            final(self).history_enabled == old(self).history_enabled,
    {
        let mut incoming = vars;
        self.env_vars.append(&mut incoming);
    }

    /// Merges the symbols a parse declared into the live context, in
    /// order and without overriding: the first name already registered
    /// stops the merge and is returned as the collision. A collision is
    /// fatal for the invocation, so what was merged before it stays.
    pub fn merge_symbols(&mut self, symbols: Vec<(String, u64)>) -> (r: Result<(), String>)
        ensures
            ({
                let (merged, collision) = spec_merge(old(self).capabilities.as_map(), symbols@);
                &&& final(self).capabilities.as_map() == merged
                &&& (r is Ok <==> collision is None)
                &&& (r matches Err(name) ==> collision == Some(name))
            }),
            final(self).env_vars == old(self).env_vars,
            final(self).is_interactive == old(self).is_interactive,
            final(self).is_login == old(self).is_login,
            final(self).history_enabled == old(self).history_enabled,
    {
        let n = symbols.len();
        let mut i: usize = 0;
        proof {
            assert(symbols@.subrange(0, n as int) =~= symbols@);
        }
        while i < n
            invariant
                i <= n,
                n == symbols@.len(),
                spec_merge(old(self).capabilities.as_map(), symbols@) == spec_merge(
                    self.capabilities.as_map(),
                    symbols@.subrange(i as int, n as int),
                ),
                self.env_vars == old(self).env_vars,
                self.is_interactive == old(self).is_interactive,
                self.is_login == old(self).is_login,
                self.history_enabled == old(self).history_enabled,
            decreases n - i,
        {
            let ghost rest = symbols@.subrange(i as int, n as int);
            proof {
                assert(rest[0] == symbols@[i as int]);
                assert(rest.drop_first() =~= symbols@.subrange(i as int + 1, n as int));
            }
            let taken = self.capabilities.lookup(&symbols[i].0);
            match taken {
                Some(_) => {
                    return Err(symbols[i].0.clone());
                },
                None => {
                    let registered = self.capabilities.register(
                        symbols[i].0.clone(),
                        symbols[i].1,
                    );
                    assert(registered);
                },
            }
            i = i + 1;
        }
        proof {
            assert(symbols@.subrange(n as int, n as int) =~= Seq::<(String, u64)>::empty());
        }
        Ok(())
    }
}

/// Builds the context of one invocation: a fresh context, the three
/// custom built-ins installed with `exit` overriding, and the batch
/// flags off. Loading the interpreter's own capability groups and its
/// standard library is the host's part.
pub fn build_context(highlight_handler: u64, print_handler: u64, exit_handler: u64) -> (r:
    InterpreterContext)
    ensures
        built_context(r, highlight_handler, print_handler, exit_handler),
{
    let mut ctx = InterpreterContext::new();
    ctx.install_custom_builtins(highlight_handler, print_handler, exit_handler);
    ctx.configure_batch();
    ctx
}

/// Building a context is idempotent: any two contexts built from the
/// same handlers offer the same capabilities under the same names, the
/// same empty environment, and the same flags.
pub proof fn law_build_context_idempotent(
    c1: InterpreterContext,
    c2: InterpreterContext,
    highlight_handler: u64,
    print_handler: u64,
    exit_handler: u64,
)
    requires
        built_context(c1, highlight_handler, print_handler, exit_handler),
        built_context(c2, highlight_handler, print_handler, exit_handler),
    ensures
        c1.capabilities.as_map() == c2.capabilities.as_map(),
        c1.env_vars@ == c2.env_vars@,
        c1.is_interactive == c2.is_interactive,
        c1.is_login == c2.is_login,
        c1.history_enabled == c2.history_enabled,
{
}

} // verus!
