//! Where captured images are written.
use vstd::prelude::*;
use vstd::string::StringExecFns;
use crate::path::{join, join_path};
use crate::text::{fixed_text, lemma_fixed_text_chars, lemma_fixed_text_injective, push_fixed};
use crate::types::SavePath;

verus! {

/// Name of the image of the pose `(yaw, pitch, radius)`:
/// `<prefix>_<yaw>_<pitch>_<radius>.jpg`, each value in decimal units.
pub open spec fn snapshot_name(prefix: Seq<char>, yaw: int, pitch: int, radius: int) -> Seq<char> {
    prefix + seq!['_'] + fixed_text(yaw) + seq!['_'] + fixed_text(pitch) + seq!['_'] + fixed_text(
        radius,
    ) + seq!['.', 'j', 'p', 'g']
}

/// Path of the image of a pose: its name under the model's capture directory.
pub open spec fn snapshot_location(save: SavePath, yaw: int, pitch: int, radius: int) -> Seq<char> {
    join(save.current_dir_path@, snapshot_name(save.file_name_prefix@, yaw, pitch, radius))
}

/// The file name of the image of the pose `(yaw, pitch, radius)`.
pub fn snapshot_file_name(prefix: &str, yaw: i64, pitch: i64, radius: i64) -> (r: String)
    ensures
        r@ == snapshot_name(prefix@, yaw as int, pitch as int, radius as int),
{
    proof {
        reveal_strlit("_");
        reveal_strlit(".jpg");
        assert(".jpg"@ =~= seq!['.', 'j', 'p', 'g']);
    }
    let mut out = String::from_str(prefix);
    out.append("_");
    push_fixed(&mut out, yaw);
    out.append("_");
    push_fixed(&mut out, pitch);
    out.append("_");
    push_fixed(&mut out, radius);
    out.append(".jpg");
    assert(out@ =~= snapshot_name(prefix@, yaw as int, pitch as int, radius as int));
    out
}

/// Where the image of the pose `(yaw, pitch, radius)` of the model that
/// `save` describes is written.
pub fn snapshot_path(save: &SavePath, yaw: i64, pitch: i64, radius: i64) -> (r: String)
    ensures
        r@ == snapshot_location(*save, yaw as int, pitch as int, radius as int),
{
    let name = snapshot_file_name(save.file_name_prefix.as_str(), yaw, pitch, radius);
    join_path(save.current_dir_path.as_str(), name.as_str())
}

/// `x + [c] + y == u + [c] + z` where neither `x` nor `u` holds `c`: then
/// `x == u` and `y == z`.
proof fn lemma_split_at(x: Seq<char>, y: Seq<char>, u: Seq<char>, z: Seq<char>, c: char)
    requires
        x + seq![c] + y == u + seq![c] + z,
        forall|i: int| 0 <= i < x.len() ==> #[trigger] x[i] != c,
        forall|i: int| 0 <= i < u.len() ==> #[trigger] u[i] != c,
    ensures
        x == u,
        y == z,
{
    let s = x + seq![c] + y;
    if x.len() < u.len() {
        assert(s[x.len() as int] == c);
        assert((u + seq![c] + z)[x.len() as int] == u[x.len() as int]);
    } else if u.len() < x.len() {
        assert((u + seq![c] + z)[u.len() as int] == c);
        assert(s[u.len() as int] == x[u.len() as int]);
    }
    assert(x =~= s.subrange(0, x.len() as int));
    assert(u =~= (u + seq![c] + z).subrange(0, u.len() as int));
    assert(y =~= s.subrange(x.len() as int + 1, s.len() as int));
    assert(z =~= (u + seq![c] + z).subrange(u.len() as int + 1, s.len() as int));
}

proof fn lemma_no_underscore(v: int)
    requires
        i64::MIN <= v <= i64::MAX,
    ensures
        forall|i: int| 0 <= i < fixed_text(v).len() ==> #[trigger] fixed_text(v)[i] != '_',
{
    lemma_fixed_text_chars(v);
}

/// Snapshot law: two different poses of the same model get different image
/// names, and so different paths in the same capture directory.
pub proof fn lemma_snapshot_paths_distinct(save: SavePath, a: (i64, i64, i64), b: (i64, i64, i64))
    requires
        a != b,
    ensures
        snapshot_name(save.file_name_prefix@, a.0 as int, a.1 as int, a.2 as int) != snapshot_name(
            save.file_name_prefix@,
            b.0 as int,
            b.1 as int,
            b.2 as int,
        ),
        snapshot_location(save, a.0 as int, a.1 as int, a.2 as int) != snapshot_location(
            save,
            b.0 as int,
            b.1 as int,
            b.2 as int,
        ),
{
    let p = save.file_name_prefix@;
    let jpg = seq!['.', 'j', 'p', 'g'];
    let na = snapshot_name(p, a.0 as int, a.1 as int, a.2 as int);
    let nb = snapshot_name(p, b.0 as int, b.1 as int, b.2 as int);
    if na == nb {
        let (ta0, ta1, ta2) = (fixed_text(a.0 as int), fixed_text(a.1 as int), fixed_text(a.2 as int));
        let (tb0, tb1, tb2) = (fixed_text(b.0 as int), fixed_text(b.1 as int), fixed_text(b.2 as int));
        lemma_no_underscore(a.0 as int);
        lemma_no_underscore(a.1 as int);
        lemma_no_underscore(b.0 as int);
        lemma_no_underscore(b.1 as int);
        let ra = ta0 + seq!['_'] + (ta1 + seq!['_'] + (ta2 + jpg));
        let rb = tb0 + seq!['_'] + (tb1 + seq!['_'] + (tb2 + jpg));
        assert(na =~= p + seq!['_'] + ra);
        assert(nb =~= p + seq!['_'] + rb);
        assert(ra =~= na.subrange(p.len() as int + 1, na.len() as int));
        assert(rb =~= nb.subrange(p.len() as int + 1, nb.len() as int));
        lemma_split_at(ta0, ta1 + seq!['_'] + (ta2 + jpg), tb0, tb1 + seq!['_'] + (tb2 + jpg), '_');
        lemma_split_at(ta1, ta2 + jpg, tb1, tb2 + jpg, '_');
        assert(ta2 =~= (ta2 + jpg).subrange(0, ta2.len() as int));
        assert(tb2 =~= (tb2 + jpg).subrange(0, tb2.len() as int));
        lemma_fixed_text_injective(a.0 as int, b.0 as int);
        lemma_fixed_text_injective(a.1 as int, b.1 as int);
        lemma_fixed_text_injective(a.2 as int, b.2 as int);
        assert(a == b);
    }
    let d = save.current_dir_path@;
    if snapshot_location(save, a.0 as int, a.1 as int, a.2 as int) == snapshot_location(
        save,
        b.0 as int,
        b.1 as int,
        b.2 as int,
    ) {
        // both names start with the same character: the prefix's first, or `_`
        assert(na[0] == nb[0]) by {
            if p.len() > 0 {
                assert(na[0] == p[0] && nb[0] == p[0]);
            } else {
                assert(na[0] == '_' && nb[0] == '_');
            }
        }
        if !(na.len() > 0 && na[0] == '/') {
            if d.len() == 0 || d.last() == '/' {
                assert(na =~= join(d, na).subrange(d.len() as int, join(d, na).len() as int));
                assert(nb =~= join(d, nb).subrange(d.len() as int, join(d, nb).len() as int));
            } else {
                assert(na =~= join(d, na).subrange(d.len() as int + 1, join(d, na).len() as int));
                assert(nb =~= join(d, nb).subrange(d.len() as int + 1, join(d, nb).len() as int));
            }
        }
    }
}

} // verus!
