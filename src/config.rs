//! The provider registry: named profiles in the order they were added, and
//! the name of the active one.

use vstd::prelude::*;

verus! {

/// What a provider is, as plain character sequences.
pub struct ProviderView {
    pub name: Seq<char>,
    pub api_url: Seq<char>,
    pub token: Seq<char>,
}

/// A named credential profile: an API base URL and the token that goes with it.
pub struct Provider {
    pub name: String,
    pub api_url: String,
    pub token: String,
}

impl View for Provider {
    type V = ProviderView;

    open spec fn view(&self) -> ProviderView {
        ProviderView { name: self.name@, api_url: self.api_url@, token: self.token@ }
    }
}

impl Provider {
    pub fn new(name: String, api_url: String, token: String) -> (r: Provider)
        ensures
            r.name == name,
            r.api_url == api_url,
            r.token == token,
    {
        Provider { name, api_url, token }
    }

    /// A copy of this provider, field by field.
    pub fn duplicate(&self) -> (r: Provider)
        ensures
            r == *self,
    {
        Provider { name: self.name.clone(), api_url: self.api_url.clone(), token: self.token.clone() }
    }
}

/// The registry as mathematics: providers in listing order, and the active name.
pub struct ConfigView {
    pub providers: Seq<ProviderView>,
    pub current: Option<Seq<char>>,
}

impl ConfigView {
    /// No two providers share a name.
    pub open spec fn wf(self) -> bool {
        forall|i: int, j: int|
            0 <= i < self.providers.len() && 0 <= j < self.providers.len() && i != j
                ==> #[trigger] self.providers[i].name != #[trigger] self.providers[j].name
    }

    pub open spec fn has(self, n: Seq<char>) -> bool {
        exists|i: int| 0 <= i < self.providers.len() && #[trigger] self.providers[i].name == n
    }

    /// Where the provider named `n` stands; meaningful when `has(n)`.
    pub open spec fn index_of(self, n: Seq<char>) -> int {
        choose|i: int| 0 <= i < self.providers.len() && #[trigger] self.providers[i].name == n
    }

    /// The stored provider named `n`; meaningful when `has(n)`.
    pub open spec fn lookup(self, n: Seq<char>) -> ProviderView {
        self.providers[self.index_of(n)]
    }

    /// The registry after adding `p`: an entry of the same name is replaced
    /// where it stands, a new name goes last.
    pub open spec fn added(self, p: ProviderView) -> ConfigView {
        ConfigView {
            providers: if self.has(p.name) {
                self.providers.update(self.index_of(p.name), p)
            } else {
                self.providers.push(p)
            },
            current: self.current,
        }
    }

    /// The registry after removing the provider named `n`, if there is one.
    /// The active name is kept even when it is the removed one.
    pub open spec fn removed(self, n: Seq<char>) -> ConfigView {
        ConfigView {
            providers: if self.has(n) {
                self.providers.remove(self.index_of(n))
            } else {
                self.providers
            },
            current: self.current,
        }
    }

    /// The registry with `n` as the active name.
    pub open spec fn selected(self, n: Seq<char>) -> ConfigView {
        ConfigView { providers: self.providers, current: Some(n) }
    }
}

/// In a registry without repeated names, a position holding `n` is the position of `n`.
pub proof fn lemma_index_of_unique(c: ConfigView, n: Seq<char>, i: int)
    requires
        c.wf(),
        0 <= i < c.providers.len(),
        c.providers[i].name == n,
    ensures
        c.has(n),
        c.index_of(n) == i,
{
    assert(c.providers[i].name == n);
}

/// The registry: providers in the order they were added, and the active name.
pub struct Config {
    pub providers: Vec<Provider>,
    pub current_provider: Option<String>,
}

pub open spec fn name_view(s: Option<String>) -> Option<Seq<char>> {
    match s {
        Some(n) => Some(n@),
        None => None,
    }
}

impl View for Config {
    type V = ConfigView;

    open spec fn view(&self) -> ConfigView {
        ConfigView {
            providers: self.providers@.map_values(|p: Provider| p@),
            current: name_view(self.current_provider),
        }
    }
}

impl Config {
    /// An empty registry with nothing active.
    pub fn new() -> (r: Config)
        ensures
            r@.providers.len() == 0,
            r@.current is None,
            r@.wf(),
    {
        Config { providers: Vec::new(), current_provider: None }
    }

    /// Whether no two providers share a name.
    pub fn well_formed(&self) -> (r: bool)
        ensures
            r == self@.wf(),
    {
        let n = self.providers.len();
        let mut i: usize = 0;
        while i < n
            invariant
                n == self.providers@.len(),
                i <= n,
                forall|a: int, b: int|
                    0 <= a < i && 0 <= b < n && a != b ==> self@.providers[a].name
                        != self@.providers[b].name,
            decreases n - i,
        {
            let mut j: usize = 0;
            while j < n
                invariant
                    n == self.providers@.len(),
                    i < n,
                    j <= n,
                    forall|a: int, b: int|
                        0 <= a < i && 0 <= b < n && a != b ==> self@.providers[a].name
                            != self@.providers[b].name,
                    forall|b: int|
                        0 <= b < j && b != i ==> self@.providers[i as int].name
                            != self@.providers[b].name,
                decreases n - j,
            {
                if j != i && self.providers[i].name == self.providers[j].name {
                    assert(self@.providers[i as int].name == self@.providers[j as int].name);
                    return false;
                }
                j = j + 1;
            }
            i = i + 1;
        }
        true
    }

    /// The position of the provider named `name`, if there is one.
    pub fn position(&self, name: &str) -> (r: Option<usize>)
        requires
            self@.wf(),
        ensures
            r is None <==> !self@.has(name@),
            r matches Some(i) ==> i < self.providers@.len() && i == self@.index_of(name@),
    {
        let key = String::from_str(name);
        let n = self.providers.len();
        let mut i: usize = 0;
        while i < n
            invariant
                n == self.providers@.len(),
                i <= n,
                key@ == name@,
                self@.wf(),
                forall|a: int| 0 <= a < i ==> self@.providers[a].name != name@,
            decreases n - i,
        {
            if self.providers[i].name == key {
                proof {
                    lemma_index_of_unique(self@, name@, i as int);
                }
                return Some(i);
            }
            i = i + 1;
        }
        None
    }

    /// Whether a provider of that name is stored.
    pub fn contains(&self, name: &str) -> (r: bool)
        requires
            self@.wf(),
        ensures
            r == self@.has(name@),
    {
        self.position(name).is_some()
    }

    /// Stores a provider; one of the same name is replaced where it stands.
    pub fn add_provider(&mut self, name: String, api_url: String, token: String)
        requires
            old(self)@.wf(),
        ensures
            final(self)@ == old(self)@.added(ProviderView { name: name@, api_url: api_url@, token: token@ }),
            final(self)@.wf(),
    {
        let ghost before = self@;
        let ghost p = ProviderView { name: name@, api_url: api_url@, token: token@ };
        let pos = self.position(name.as_str());
        let entry = Provider::new(name, api_url, token);
        match pos {
            Some(i) => {
                self.providers.set(i, entry);
            },
            None => {
                self.providers.push(entry);
            },
        }
        assert(self@.providers =~= before.added(p).providers);
    }

    /// Deletes the provider named `name`, if there is one; the active name is left as it is.
    pub fn remove_provider(&mut self, name: &str)
        requires
            old(self)@.wf(),
        ensures
            final(self)@ == old(self)@.removed(name@),
            final(self)@.wf(),
    {
        let ghost before = self@;
        match self.position(name) {
            Some(i) => {
                self.providers.remove(i);
                assert(self@.providers =~= before.removed(name@).providers);
            },
            None => {
                assert(self@.providers =~= before.providers);
            },
        }
    }

    /// Makes `name` the active provider.
    pub fn set_current_provider(&mut self, name: &str)
        ensures
            final(self)@ == old(self)@.selected(name@),
    {
        self.current_provider = Some(String::from_str(name));
        assert(self@.providers =~= old(self)@.providers);
    }
}

} // verus!
