//! The plugin registry: a name/description/execute contract, a manager
//! with a registered-variants lookup by name, and the history plugin.
//! The registry is decoupled from the execution path; no resolution or
//! execution outcome depends on it.

use vstd::prelude::*;
use vstd::string::StrSliceExecFns;
use vstd::string::StringExecFns;
use crate::errors::DiracError;
use crate::text::str_eq;

verus! {

/// A named capability with a description and an entry point.
pub trait Plugin: Sized {
    /// The plugin's name, as a specification-level value.
    spec fn spec_name(&self) -> Seq<char>;

    /// The plugin's description, as a specification-level value.
    spec fn spec_description(&self) -> Seq<char>;

    /// On which inputs a run succeeds.
    spec fn execute_ok(&self, input: Seq<char>) -> bool;

    /// The output of a successful run.
    spec fn spec_execute(&self, input: Seq<char>) -> Seq<char>;

    /// The plugin's name.
    fn name(&self) -> (r: String)
        ensures
            r@ == self.spec_name(),
    ;

    /// The plugin's description.
    fn description(&self) -> (r: String)
        ensures
            r@ == self.spec_description(),
    ;

    /// Runs the plugin on one line of input.
    fn execute(&self, input: &str) -> (r: Result<String, DiracError>)
        ensures
            self.execute_ok(input@) ==> ({
                &&& r matches Ok(out)
                &&& out@ == self.spec_execute(input@)
            }),
            !self.execute_ok(input@) ==> r is Err,
    ;
}

/// The registry contract: registration and lookup by name.
pub trait PluginManager<P: Plugin>: Sized {
    /// The registered plugins, in registration order.
    spec fn spec_plugins(&self) -> Seq<P>;

    /// Registers one more plugin.
    fn register_plugin(&mut self, plugin: P)
        ensures
            final(self).spec_plugins() == old(self).spec_plugins().push(plugin),
    ;

    /// Looks a plugin up by its name; the first registered match wins.
    fn get_plugin(&self, name: &str) -> (r: Option<&P>)
        ensures
            r matches Some(p) ==> exists|i: int|
                0 <= i < self.spec_plugins().len() && self.spec_plugins()[i] == *p
                    && p.spec_name() == name@ && (forall|k: int|
                    0 <= k < i ==> self.spec_plugins()[k].spec_name() != name@),
            r is None ==> forall|i: int|
                0 <= i < self.spec_plugins().len() ==> self.spec_plugins()[i].spec_name() != name@,
    ;

    /// Lists every registered plugin's name and description.
    fn list_plugins(&self) -> (r: Vec<(String, String)>)
        ensures
            r@.len() == self.spec_plugins().len(),
            forall|i: int|
                0 <= i < r@.len() ==> (#[trigger] r@[i]).0@ == self.spec_plugins()[i].spec_name()
                    && r@[i].1@ == self.spec_plugins()[i].spec_description(),
    ;
}

/// The registry used by the terminal: a vector of registered plugins.
#[derive(Debug)]
pub struct DefaultPluginManager<P: Plugin> {
    plugins: Vec<P>,
}

impl<P: Plugin> DefaultPluginManager<P> {
    /// An empty registry.
    pub fn new() -> (r: Self)
        ensures
            r.spec_plugins() == Seq::<P>::empty(),
    {
        DefaultPluginManager { plugins: Vec::new() }
    }
}

impl<P: Plugin> PluginManager<P> for DefaultPluginManager<P> {
    closed spec fn spec_plugins(&self) -> Seq<P> {
        self.plugins@
    }

    fn register_plugin(&mut self, plugin: P) {
        self.plugins.push(plugin);
    }

    fn get_plugin(&self, name: &str) -> (r: Option<&P>) {
        let mut i: usize = 0;
        while i < self.plugins.len()
            invariant
                0 <= i <= self.plugins@.len(),
                forall|k: int| 0 <= k < i ==> self.plugins@[k].spec_name() != name@,
            decreases self.plugins@.len() - i,
        {
            let candidate = self.plugins[i].name();
            if str_eq(candidate.as_str(), name) {
                let r = Some(&self.plugins[i]);
                proof {
                    let w = i as int;
                    assert(0 <= w < self.spec_plugins().len() && self.spec_plugins()[w]
                        == self.plugins@[w] && self.plugins@[w].spec_name() == name@ && (forall|
                        k: int,
                    | 0 <= k < w ==> self.spec_plugins()[k].spec_name() != name@));
                }
                return r;
            }
            i += 1;
        }
        None
    }

    fn list_plugins(&self) -> (r: Vec<(String, String)>) {
        let mut r: Vec<(String, String)> = Vec::new();
        let mut i: usize = 0;
        while i < self.plugins.len()
            invariant
                0 <= i <= self.plugins@.len(),
                r@.len() == i,
                forall|k: int|
                    0 <= k < i ==> (#[trigger] r@[k]).0@ == self.plugins@[k].spec_name()
                        && r@[k].1@ == self.plugins@[k].spec_description(),
            decreases self.plugins@.len() - i,
        {
            let n = self.plugins[i].name();
            let d = self.plugins[i].description();
            r.push((n, d));
            i += 1;
        }
        r
    }
}

/// The command history joined into one text, one entry per line.
pub open spec fn joined_history(es: Seq<Seq<char>>) -> Seq<char>
    decreases es.len(),
{
    if es.len() == 0 {
        Seq::empty()
    } else if es.len() == 1 {
        es[0]
    } else {
        es[0] + "\n"@ + joined_history(es.drop_first())
    }
}

/// Appending one entry extends the joined text by a line break and the
/// entry.
proof fn lemma_joined_history_push(es: Seq<Seq<char>>, e: Seq<char>)
    ensures
        joined_history(es.push(e)) == if es.len() == 0 {
            e
        } else {
            joined_history(es) + "\n"@ + e
        },
    decreases es.len(),
{
    if es.len() == 0 {
        assert(es.push(e)[0] == e);
    } else {
        let p = es.push(e);
        assert(p[0] == es[0]);
        assert(p.drop_first() =~= es.drop_first().push(e));
        lemma_joined_history_push(es.drop_first(), e);
        if es.len() == 1 {
            assert(joined_history(p) == p[0] + "\n"@ + e);
        } else {
            assert(joined_history(p) == p[0] + "\n"@ + joined_history(p.drop_first()));
            assert(es[0] + "\n"@ + (joined_history(es.drop_first()) + "\n"@ + e)
                =~= (es[0] + "\n"@ + joined_history(es.drop_first())) + "\n"@ + e);
        }
    }
}

/// Keeps the command history and serves it back on request.
#[derive(Debug)]
pub struct HistoryPlugin {
    history: Vec<String>,
}

impl HistoryPlugin {
    /// A plugin with an empty history.
    pub fn new() -> (r: Self)
        ensures
            r.spec_history() == Seq::<Seq<char>>::empty(),
    {
        let r = HistoryPlugin { history: Vec::new() };
        proof {
            assert(r.history.deep_view() =~= Seq::<Seq<char>>::empty());
        }
        r
    }

    /// The recorded entries.
    pub closed spec fn spec_history(&self) -> Seq<Seq<char>> {
        self.history.deep_view()
    }

    /// Renders the whole history, one entry per line.
    fn render_history(&self) -> (r: String)
        ensures
            r@ == joined_history(self.spec_history()),
    {
        let mut r = String::new();
        let mut i: usize = 0;
        while i < self.history.len()
            invariant
                0 <= i <= self.history@.len(),
                r@ == joined_history(self.spec_history().take(i as int)),
            decreases self.history@.len() - i,
        {
            if i > 0 {
                r.append("\n");
            }
            r.append(self.history[i].as_str());
            proof {
                let hv = self.spec_history();
                assert(hv.take(i as int).push(hv[i as int]) =~= hv.take(i + 1));
                lemma_joined_history_push(hv.take(i as int), hv[i as int]);
                assert(hv[i as int] == self.history@[i as int]@);
                assert(r@ =~= joined_history(hv.take(i + 1)));
            }
            i += 1;
        }
        proof {
            assert(self.spec_history().take(self.history@.len() as int) =~= self.spec_history());
        }
        r
    }
}

impl Plugin for HistoryPlugin {
    open spec fn spec_name(&self) -> Seq<char> {
        "history"@
    }

    open spec fn spec_description(&self) -> Seq<char> {
        "Manages command history and provides history-related commands"@
    }

    /// Running the history plugin always succeeds.
    open spec fn execute_ok(&self, input: Seq<char>) -> bool {
        true
    }

    /// `history` yields the recorded entries one per line; any other
    /// input yields empty output.
    open spec fn spec_execute(&self, input: Seq<char>) -> Seq<char> {
        if input == "history"@ {
            joined_history(self.spec_history())
        } else {
            Seq::empty()
        }
    }

    fn name(&self) -> (r: String) {
        String::from_str("history")
    }

    fn description(&self) -> (r: String) {
        String::from_str("Manages command history and provides history-related commands")
    }

    fn execute(&self, input: &str) -> (r: Result<String, DiracError>) {
        if str_eq(input, "history") {
            Ok(self.render_history())
        } else {
            Ok(String::new())
        }
    }
}

} // verus!
