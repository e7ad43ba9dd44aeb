use vstd::prelude::*;
use vstd::string::StringExecFns;

verus! {

/// The mathematical value of an [`AppPath`]: the base as the platform
/// provider handed it over, and the segments appended after it, in order.
#[verifier::ext_equal]
pub ghost struct PathModel {
    pub base: Seq<char>,
    pub segments: Seq<Seq<char>>,
}

/// A filesystem path built from an opaque base (the home directory as the
/// platform provider gave it) followed by the segments appended to it.
/// It is a pure value: nothing here touches the filesystem.
#[derive(Debug, PartialEq, Eq)]
pub struct AppPath {
    base: String,
    segments: Vec<String>,
}

impl View for AppPath {
    type V = PathModel;

    closed spec fn view(&self) -> PathModel {
        PathModel { base: self.base@, segments: self.segments.deep_view() }
    }
}

/// What the segments contribute to the rendered path: each one is preceded
/// by the separator.
pub open spec fn render_segments(segments: Seq<Seq<char>>, sep: Seq<char>) -> Seq<char>
    decreases segments.len(),
{
    if segments.len() == 0 {
        Seq::<char>::empty()
    } else {
        sep + segments[0] + render_segments(segments.skip(1), sep)
    }
}

/// The rendered form of a path: its base followed by each segment, each
/// preceded by the separator.
pub open spec fn render_model(p: PathModel, sep: Seq<char>) -> Seq<char> {
    p.base + render_segments(p.segments, sep)
}

impl AppPath {
    /// A path that is exactly the given base, with no segments appended.
    pub fn from_base(base: String) -> (r: AppPath)
        ensures
            r@ == (PathModel { base: base@, segments: Seq::<Seq<char>>::empty() }),
    {
        let r = AppPath { base, segments: Vec::new() };
        proof {
            assert(r@.segments =~= Seq::<Seq<char>>::empty());
        }
        r
    }

    /// The same path with one more segment appended at the end.
    pub fn join(self, segment: &str) -> (r: AppPath)
        ensures
            r@ == (PathModel { base: self@.base, segments: self@.segments.push(segment@) }),
    {
        let ghost before = self@;
        let mut r = self;
        r.segments.push(segment.to_owned());
        proof {
            assert(r@.segments =~~= before.segments.push(segment@));
        }
        r
    }

    /// Render the path as a string, placing the separator before each
    /// appended segment.
    pub fn render(&self, sep: &str) -> (r: String)
        ensures
            r@ == render_model(self@, sep@),
    {
        let ghost segs = self@.segments;
        let mut out = self.base.clone();
        let mut i: usize = 0;
        proof {
            assert(segs.skip(0) =~= segs);
        }
        while i < self.segments.len()
            invariant
                i <= self.segments.len(),
                segs == self@.segments,
                render_model(self@, sep@) == out@ + render_segments(segs.skip(i as int), sep@),
            decreases self.segments.len() - i,
        {
            let ghost out0 = out@;
            out.append(sep);
            out.append(self.segments[i].as_str());
            proof {
                let rest = render_segments(segs.skip(i as int + 1), sep@);
                assert(segs.skip(i as int)[0] == segs[i as int]);
                assert(segs.skip(i as int).skip(1) =~= segs.skip(i as int + 1));
                assert(render_segments(segs.skip(i as int), sep@) == sep@ + segs[i as int]
                    + rest);
                assert(out@ + rest =~= out0 + render_segments(segs.skip(i as int), sep@));
            }
            i = i + 1;
        }
        proof {
            assert(render_segments(segs.skip(i as int), sep@) =~= Seq::<char>::empty());
            assert(out@ + Seq::<char>::empty() =~= out@);
        }
        out
    }
}

} // verus!
