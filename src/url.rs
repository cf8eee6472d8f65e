use vstd::prelude::*;
use vstd::string::*;

verus! {

/// The common start of every pricing document's address.
pub const PRICING_BASE_URL: &'static str = "https://images.bookcicle.com/ai/ai-pricing";

/// The environment whose document carries no suffix.
pub const PRODUCTION_ENV: &'static str = "prod";

/// Where the pricing document of environment `env` is published.
pub open spec fn pricing_url_of(env: Seq<char>) -> Seq<char> {
    if env == PRODUCTION_ENV@ {
        PRICING_BASE_URL@ + ".json"@
    } else {
        PRICING_BASE_URL@ + "-"@ + env + ".json"@
    }
}

/// Whether two strings hold the same characters.
pub fn same_chars(a: &str, b: &str) -> (r: bool)
    ensures
        r == (a@ == b@),
{
    let n = a.unicode_len();
    if n != b.unicode_len() {
        return false;
    }
    let mut i: usize = 0;
    while i < n
        invariant
            n == a@.len(),
            n == b@.len(),
            i <= n,
            forall|j: int| 0 <= j < i ==> a@[j] == b@[j],
        decreases n - i,
    {
        if a.get_char(i) != b.get_char(i) {
            return false;
        }
        i = i + 1;
    }
    assert(a@ =~= b@);
    true
}

/// The address of the pricing document of environment `env`: the production
/// name selects the bare document, every other name its own suffixed variant.
pub fn pricing_url(env: &str) -> (r: String)
    ensures
        r@ == pricing_url_of(env@),
{
    let mut url = String::from_str(PRICING_BASE_URL);
    if same_chars(env, PRODUCTION_ENV) {
        url.append(".json");
    } else {
        url.append("-");
        url.append(env);
        url.append(".json");
    }
    url
}

} // verus!
