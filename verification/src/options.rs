use vstd::prelude::*;
use vstd::string::StrSliceExecFns;

verus! {

/// The URL prefix as it is used: with every trailing slash removed.
pub open spec fn spec_trim_trailing_slashes(s: Seq<char>) -> Seq<char>
    decreases s.len(),
{
    if s.len() > 0 && s.last() == '/' {
        spec_trim_trailing_slashes(s.drop_last())
    } else {
        s
    }
}

/// Strips trailing slashes from a configured URL prefix.
pub fn normalize_url_prefix(s: &str) -> (r: String)
    ensures
        r@ == spec_trim_trailing_slashes(s@),
{
    let n = s.unicode_len();
    proof {
        assert(s@.take(n as int) =~= s@);
    }
    let mut k = n;
    while k > 0 && s.get_char(k - 1) == '/'
        invariant
            k <= n,
            n == s@.len(),
            spec_trim_trailing_slashes(s@) == spec_trim_trailing_slashes(s@.take(k as int)),
        decreases k,
    {
        proof {
            assert(s@.take(k as int).last() == s@[k - 1]);
            assert(s@.take(k as int).drop_last() =~= s@.take(k - 1));
        }
        k -= 1;
    }
    proof {
        if k > 0 {
            assert(s@.take(k as int).last() == s@[k - 1]);
        }
        assert(spec_trim_trailing_slashes(s@.take(k as int)) == s@.take(k as int));
    }
    let trimmed = s.substring_char(0, k);
    trimmed.to_owned()
}

/// The startup options of the server process, held as plain values:
/// the config file path, the mod download directory, the bind address,
/// and the URL prefix downloads are advertised under. Supplied once at
/// startup and immutable for the process lifetime.
#[derive(Debug, Clone)]
pub struct CliOptions {
    pub config: String,
    pub download_dir: String,
    pub bind: String,
    pub url_prefix: String,
}

impl CliOptions {
    /// The options as the pipeline consumes them: the URL prefix loses
    /// its trailing slashes, everything else is kept as given.
    pub fn normalized(self) -> (r: CliOptions)
        ensures
            r.config@ == self.config@,
            r.download_dir@ == self.download_dir@,
            r.bind@ == self.bind@,
            r.url_prefix@ == spec_trim_trailing_slashes(self.url_prefix@),
    {
        let url_prefix = normalize_url_prefix(self.url_prefix.as_str());
        CliOptions { config: self.config, download_dir: self.download_dir, bind: self.bind, url_prefix }
    }
}

} // verus!
