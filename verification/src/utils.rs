use vstd::prelude::*;
use vstd::string::StringExecFns;

verus! {

/// The configuration values the system is driven by.  Each is read
/// from the environment by the embedding program under a name this
/// module composes; composing is pure and stands here, reading the
/// environment does not.
#[derive(Clone, Copy, Debug, PartialEq, Eq, Structural)]
pub enum Const {
    KakaoRestApiKey,
    KakaoRestApiUrl,
    DbUrl,
}

impl Const {
    /// The fixed suffix of each configuration key.
    pub open spec fn key_suffix(self) -> Seq<char> {
        match self {
            Const::KakaoRestApiKey => "KAKAO_REST_API_KEY"@,
            Const::KakaoRestApiUrl => "KAKAO_REST_API_URL"@,
            Const::DbUrl => "EGOMOGO_DATABASE_URL"@,
        }
    }

    /// The full name under which this value is configured: the
    /// deployment's prefix, an underscore, and the fixed suffix.  The
    /// embedding program reads the prefix and then the named variable
    /// from its environment.
    pub fn value(&self, prefix: &str) -> (r: String)
        ensures
            r@ == prefix@ + "_"@ + self.key_suffix(),
    {
        let mut r = prefix.to_owned();
        r.append("_");
        let suffix = match self {
            Const::KakaoRestApiKey => "KAKAO_REST_API_KEY",
            Const::KakaoRestApiUrl => "KAKAO_REST_API_URL",
            Const::DbUrl => "EGOMOGO_DATABASE_URL",
        };
        r.append(suffix);
        proof {
            assert(r@ =~= prefix@ + "_"@ + self.key_suffix());
        }
        r
    }
}

} // verus!
