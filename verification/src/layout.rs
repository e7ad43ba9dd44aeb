use vstd::prelude::*;

use crate::errors::{ErrorDetails, Fallible};
use crate::path::{AppPath, PathModel, render_model, render_segments};

verus! {

// ~/
//     .apollo/
//         bin/
//         atlas/
//         auth.toml
//
// Only `.apollo` and `.apollo/bin` are computed here; the rest of the
// layout belongs to collaborators that consume these paths.

/// What resolving the application home yields for each possible answer of
/// the platform's home-directory provider.
pub open spec fn home_result(env: Option<PathModel>) -> Result<PathModel, ErrorDetails> {
    match env {
        Some(h) => Ok(PathModel { base: h.base, segments: h.segments.push(".apollo"@) }),
        None => Err(ErrorDetails::NoHomeEnvironmentVar),
    }
}

/// What resolving the application binary directory yields: the application
/// home with `bin` appended, or the home resolution's failure unchanged.
pub open spec fn home_bin_result(env: Option<PathModel>) -> Result<PathModel, ErrorDetails> {
    match home_result(env) {
        Ok(h) => Ok(PathModel { base: h.base, segments: h.segments.push("bin"@) }),
        Err(e) => Err(e),
    }
}

/// The mathematical value of a fallible path result.
pub open spec fn fallible_model(r: Fallible<AppPath>) -> Result<PathModel, ErrorDetails> {
    match r {
        Ok(p) => Ok(p@),
        Err(e) => Err(e),
    }
}

/// The mathematical value of the provider's optional answer.
pub open spec fn provider_model(home: Option<AppPath>) -> Option<PathModel> {
    match home {
        Some(h) => Some(h@),
        None => None,
    }
}

/// Resolve the application home, `<home>/.apollo`, from the provider's
/// answer: append `.apollo` to the home it supplied, or fail with
/// [`ErrorDetails::NoHomeEnvironmentVar`] when it supplied none.
pub fn apollo_home_of(home: Option<AppPath>) -> (r: Fallible<AppPath>)
    ensures
        fallible_model(r) == home_result(provider_model(home)),
{
    match home {
        Some(h) => Ok(h.join(".apollo")),
        None => Err(ErrorDetails::NoHomeEnvironmentVar),
    }
}

/// Resolve the application binary directory, `<home>/.apollo/bin`, from
/// the provider's answer: the application home with `bin` appended, any
/// failure forwarded unchanged.
pub fn apollo_home_bin_of(home: Option<AppPath>) -> (r: Fallible<AppPath>)
    ensures
        fallible_model(r) == home_bin_result(provider_model(home)),
{
    match apollo_home_of(home) {
        Ok(h) => Ok(h.join("bin")),
        Err(e) => Err(e),
    }
}

/// Relies on dirs::home_dir: the home directory of the current user, if
/// the platform can determine one. The answer depends on the process
/// environment, so nothing is promised of its value.
#[verifier::external_body]
fn home_dir_base() -> (r: Option<String>) {
    dirs::home_dir().map(|p| p.to_string_lossy().into_owned())
}

/// Resolve the application home, `<home>/.apollo`, against the platform's
/// home-directory provider. Whatever the provider answers, the result is
/// the home resolution of that answer: on success the path's appended
/// segments are exactly `.apollo`, and the only failure is
/// [`ErrorDetails::NoHomeEnvironmentVar`].
pub fn apollo_home() -> (r: Fallible<AppPath>)
    ensures
        exists|env: Option<PathModel>| fallible_model(r) == #[trigger] home_result(env),
        r matches Ok(p) ==> p@.segments =~= seq![".apollo"@],
        r matches Err(e) ==> e == ErrorDetails::NoHomeEnvironmentVar,
{
    let base = home_dir_base();
    let home = match base {
        Some(b) => Some(AppPath::from_base(b)),
        None => None,
    };
    let r = apollo_home_of(home);
    proof {
        assert(fallible_model(r) == home_result(provider_model(home)));
        if r is Ok {
            assert(r->Ok_0@.segments =~= seq![".apollo"@]);
        }
    }
    r
}

/// Resolve the application binary directory, `<home>/.apollo/bin`, against
/// the platform's home-directory provider. On success the path's appended
/// segments are exactly `.apollo` then `bin`; the home resolution's only
/// failure, [`ErrorDetails::NoHomeEnvironmentVar`], is forwarded unchanged.
pub fn apollo_home_bin() -> (r: Fallible<AppPath>)
    ensures
        r matches Ok(p) ==> p@.segments =~= seq![".apollo"@, "bin"@],
        r matches Err(e) ==> e == ErrorDetails::NoHomeEnvironmentVar,
{
    match apollo_home() {
        Ok(home) => Ok(home.join("bin")),
        Err(e) => Err(e),
    }
}

/// Law: for every home the provider supplies, resolving the application
/// home succeeds with that home's path extended by the single segment
/// `.apollo`; rendered, that is the home followed by the separator and
/// `.apollo`, exactly.
pub proof fn lemma_home_resolution_exact(h: PathModel, sep: Seq<char>)
    requires
        h.segments == Seq::<Seq<char>>::empty(),
    ensures
        home_result(Some(h)) matches Ok(p) && render_model(p, sep) == h.base + sep
            + ".apollo"@,
{
    let p = home_result(Some(h))->Ok_0;
    assert(p.segments =~= seq![".apollo"@]);
    assert(p.segments.skip(1) =~= Seq::<Seq<char>>::empty());
    assert(render_segments(Seq::<Seq<char>>::empty(), sep) == Seq::<char>::empty());
    assert(render_segments(p.segments, sep) == sep + ".apollo"@ + render_segments(
        p.segments.skip(1),
        sep,
    ));
    assert(render_model(p, sep) =~= h.base + sep + ".apollo"@);
}

/// Law: for every home the provider supplies, resolving the application
/// binary directory succeeds with the application home extended by the
/// single segment `bin`; rendered, that is the home followed by
/// `.apollo` and `bin`, each preceded by the separator, exactly.
pub proof fn lemma_home_bin_resolution_exact(h: PathModel, sep: Seq<char>)
    requires
        h.segments == Seq::<Seq<char>>::empty(),
    ensures
        home_bin_result(Some(h)) matches Ok(p) && render_model(p, sep) == h.base + sep
            + ".apollo"@ + sep + "bin"@,
{
    let p = home_bin_result(Some(h))->Ok_0;
    assert(p.segments =~= seq![".apollo"@, "bin"@]);
    assert(p.segments.skip(1) =~= seq!["bin"@]);
    assert(p.segments.skip(1).skip(1) =~= Seq::<Seq<char>>::empty());
    assert(render_segments(Seq::<Seq<char>>::empty(), sep) == Seq::<char>::empty());
    assert(render_segments(p.segments.skip(1), sep) == sep + "bin"@ + render_segments(
        p.segments.skip(1).skip(1),
        sep,
    ));
    assert(render_segments(p.segments, sep) == sep + ".apollo"@ + render_segments(
        p.segments.skip(1),
        sep,
    ));
    assert(render_model(p, sep) =~= h.base + sep + ".apollo"@ + sep + "bin"@);
}

/// Law: when the provider yields no home directory, both resolutions fail
/// with [`ErrorDetails::NoHomeEnvironmentVar`] and produce no path.
pub proof fn lemma_no_home_fails()
    ensures
        home_result(None) == Err::<PathModel, ErrorDetails>(ErrorDetails::NoHomeEnvironmentVar),
        home_bin_result(None) == Err::<PathModel, ErrorDetails>(
            ErrorDetails::NoHomeEnvironmentVar,
        ),
{
}

/// Law: resolving the application home is idempotent. Two results obtained
/// under an unchanged environment are path-equal.
pub proof fn lemma_home_idempotent(
    env: Option<PathModel>,
    r1: Result<PathModel, ErrorDetails>,
    r2: Result<PathModel, ErrorDetails>,
)
    requires
        r1 == home_result(env),
        r2 == home_result(env),
    ensures
        r1 == r2,
{
}

/// Law: resolving the application binary directory is idempotent. Two
/// results obtained under an unchanged environment are path-equal.
pub proof fn lemma_home_bin_idempotent(
    env: Option<PathModel>,
    r1: Result<PathModel, ErrorDetails>,
    r2: Result<PathModel, ErrorDetails>,
)
    requires
        r1 == home_bin_result(env),
        r2 == home_bin_result(env),
    ensures
        r1 == r2,
{
}

} // verus!
