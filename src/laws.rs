//! What holds across operations of the registry, stated over the models
//! that the operations' own contracts use.

use vstd::prelude::*;
use crate::config::{ConfigView, ProviderView};
use crate::mask::{mask_suffix, VISIBLE_CHARS};
use crate::provider::{drift_status, listing, switched, DriftStatus, EnvView};

verus! {

/// How many leading characters of `token` a listing shows: `min(8, len)`.
pub open spec fn shown_len(token: Seq<char>) -> int {
    if token.len() <= VISIBLE_CHARS {
        token.len() as int
    } else {
        VISIBLE_CHARS as int
    }
}

/// After a provider is added, the listing has an entry for it, with its URL,
/// and with a masked token that shows exactly the first `min(8, len)`
/// characters of the real token, followed by the mask.
pub proof fn lemma_add_then_list(c: ConfigView, p: ProviderView)
    requires
        c.wf(),
    ensures
        exists|i: int|
            0 <= i < listing(c.added(p)).len() && {
                let e = #[trigger] listing(c.added(p))[i];
                &&& e.name == p.name
                &&& e.api_url == p.api_url
                &&& e.masked_token.take(shown_len(p.token)) == p.token.take(shown_len(p.token))
                &&& e.masked_token.skip(shown_len(p.token)) == mask_suffix()
            },
{
    let c2 = c.added(p);
    let i = if c.has(p.name) {
        c.index_of(p.name)
    } else {
        c.providers.len() as int
    };
    assert(c2.providers[i] == p);
    let e = listing(c2)[i];
    let k = shown_len(p.token);
    assert(e.masked_token.take(k) =~= p.token.take(k));
    assert(e.masked_token.skip(k) =~= mask_suffix());
}

/// Switching to a stored provider makes it active, and switching to it a
/// second time changes nothing: the second switch finds it already active.
pub proof fn lemma_switch_twice(c: ConfigView, n: Seq<char>)
    requires
        c.has(n),
    ensures
        switched(c, n).has(n),
        switched(c, n).current == Some(n),
        switched(switched(c, n), n) == switched(c, n),
{
    let i = c.index_of(n);
    assert(switched(c, n).providers[i].name == n);
}

/// With a stored provider active, the environment check reports a match
/// exactly when both variables hold that provider's token and URL; any other
/// value of either variable, or an unset one, is a mismatch.
pub proof fn lemma_drift_exact(c: ConfigView, token: Option<Seq<char>>, url: Option<Seq<char>>)
    requires
        c.current is Some,
        c.has(c.current->0),
    ensures
        ({
            let p = c.lookup(c.current->0);
            &&& drift_status(c, EnvView { token: Some(p.token), url: Some(p.api_url) })
                == DriftStatus::Match
            &&& drift_status(c, EnvView { token, url }) == DriftStatus::Match <==> (token == Some(
                p.token,
            ) && url == Some(p.api_url))
            &&& drift_status(c, EnvView { token, url }) != DriftStatus::Match ==> drift_status(
                c,
                EnvView { token, url },
            ) == DriftStatus::Mismatch
        }),
{
}

/// Removing the active provider keeps its name active, and the environment
/// check then reports the missing provider, whatever the environment holds.
pub proof fn lemma_remove_active(c: ConfigView, n: Seq<char>, e: EnvView)
    requires
        c.wf(),
        c.current == Some(n),
    ensures
        c.removed(n).current == Some(n),
        !c.removed(n).has(n),
        drift_status(c.removed(n), e) == DriftStatus::MissingProvider,
{
    let r = c.removed(n);
    if c.has(n) {
        let i = c.index_of(n);
        assert forall|j: int| 0 <= j < r.providers.len() implies r.providers[j].name != n by {
            if j < i {
                assert(r.providers[j] == c.providers[j]);
            } else {
                assert(r.providers[j] == c.providers[j + 1]);
            }
        }
    }
}

} // verus!
