//! Objects (sprites): the scan of OAM for the objects on a line, and the
//! order in which the objects at one pixel are drawn.

use crate::ppu::regs::{ObjAttrFlags, ObjectAttribute};
use vstd::prelude::*;
use vstd::std_specs::convert::FromSpec;

verus! {

/// The bytes of object attribute memory: 40 objects of 4 bytes.
pub const OAM_SIZE: usize = 160;

/// At most this many objects are drawn on one line.
pub const MAX_OBJS_PER_LINE: usize = 10;

/// The attribute stored at OAM offset `i`, tagged with that offset.
pub open spec fn slot_attr(oam: Seq<u8>, i: int) -> ObjectAttribute {
    ObjectAttribute {
        y_pos: oam[i],
        x_pos: oam[i + 1],
        tile_idx: oam[i + 2],
        flags: <ObjAttrFlags as FromSpec<u8>>::from_spec(oam[i + 3]),
        oam_idx: i as usize,
    }
}

/// Whether the object at OAM offset `i` covers line `ly`: a Y byte of 160 or
/// more hides it, and it covers `height` lines from Y - 16.
pub open spec fn slot_on_line(oam: Seq<u8>, i: int, ly: u8, height: u8) -> bool {
    let y = oam[i];
    y < 160 && y <= ly + 16 && ly + 16 < y + height
}

/// The objects on line `ly` among the first `n` slots of OAM, in OAM order,
/// keeping at most ten.
pub open spec fn oam_scan(oam: Seq<u8>, ly: u8, height: u8, n: nat) -> Seq<ObjectAttribute>
    decreases n,
{
    if n == 0 {
        Seq::empty()
    } else {
        let prev = oam_scan(oam, ly, height, (n - 1) as nat);
        let i = (n - 1) * 4;
        if prev.len() < MAX_OBJS_PER_LINE && slot_on_line(oam, i, ly, height) {
            prev.push(slot_attr(oam, i))
        } else {
            prev
        }
    }
}

/// A scan keeps at most ten objects, and once it holds ten it takes no more.
pub proof fn lemma_oam_scan_bounded(oam: Seq<u8>, ly: u8, height: u8, n: nat, k: nat)
    ensures
        oam_scan(oam, ly, height, n).len() <= MAX_OBJS_PER_LINE,
        oam_scan(oam, ly, height, n).len() == MAX_OBJS_PER_LINE ==> oam_scan(
            oam,
            ly,
            height,
            n + k,
        ) == oam_scan(oam, ly, height, n),
    decreases n + k,
{
    if n > 0 {
        lemma_oam_scan_bounded(oam, ly, height, (n - 1) as nat, 0);
    }
    if k > 0 {
        lemma_oam_scan_bounded(oam, ly, height, n, (k - 1) as nat);
        lemma_oam_scan_bounded(oam, ly, height, (n + k - 1) as nat, 0);
    }
}

/// Every object a scan keeps comes from an OAM slot: its palette is 0 or 1.
pub proof fn lemma_oam_scan_palettes(oam: Seq<u8>, ly: u8, height: u8, n: nat)
    ensures
        forall|j: int|
            0 <= j < oam_scan(oam, ly, height, n).len() ==> #[trigger] oam_scan(
                oam,
                ly,
                height,
                n,
            )[j].flags.palette_idx < 2,
    decreases n,
{
    if n > 0 {
        let prev = oam_scan(oam, ly, height, (n - 1) as nat);
        lemma_oam_scan_palettes(oam, ly, height, (n - 1) as nat);
        let i = (n - 1) * 4;
        let a = slot_attr(oam, i);
        assert(a.flags.palette_idx < 2);
        let s = oam_scan(oam, ly, height, n);
        assert forall|j: int| 0 <= j < s.len() implies #[trigger] s[j].flags.palette_idx < 2 by {
            if j < prev.len() {
                assert(s[j] == prev[j]);
            }
        }
    }
}

/// Whether an object covers the pixel column `screen_x`: it covers the 8
/// columns from X - 8.
pub open spec fn covers_column(a: ObjectAttribute, screen_x: u32) -> bool {
    a.x_pos <= screen_x + 8 && screen_x + 8 < a.x_pos + 8
}

/// The objects among the first `n` of `objs` that cover `screen_x`, in order.
pub open spec fn objs_at_column(objs: Seq<ObjectAttribute>, screen_x: u32, n: nat) -> Seq<
    ObjectAttribute,
>
    decreases n,
{
    if n == 0 {
        Seq::empty()
    } else {
        let prev = objs_at_column(objs, screen_x, (n - 1) as nat);
        if covers_column(objs[n - 1], screen_x) {
            prev.push(objs[n - 1])
        } else {
            prev
        }
    }
}

/// `a` is drawn before `b` (and so under it): larger X first, and for equal
/// X the larger OAM offset first.
pub open spec fn drawn_before(a: ObjectAttribute, b: ObjectAttribute) -> bool {
    a.x_pos > b.x_pos || (a.x_pos == b.x_pos && a.oam_idx > b.oam_idx)
}

/// `a` put into `s` in front of the first object it is drawn before.
pub open spec fn insert_in_order(s: Seq<ObjectAttribute>, a: ObjectAttribute) -> Seq<
    ObjectAttribute,
>
    decreases s.len(),
{
    if s.len() == 0 {
        seq![a]
    } else if drawn_before(a, s[0]) {
        seq![a] + s
    } else {
        seq![s[0]] + insert_in_order(s.drop_first(), a)
    }
}

/// `s` in drawing order; objects that compare equal keep their order.
pub open spec fn in_draw_order(s: Seq<ObjectAttribute>) -> Seq<ObjectAttribute>
    decreases s.len(),
{
    if s.len() == 0 {
        s
    } else {
        insert_in_order(in_draw_order(s.drop_last()), s.last())
    }
}

/// Inserting at the first position whose object `a` is drawn before.
proof fn lemma_insert_at(s: Seq<ObjectAttribute>, a: ObjectAttribute, p: int)
    requires
        0 <= p <= s.len(),
        forall|j: int| 0 <= j < p ==> !drawn_before(a, #[trigger] s[j]),
        p < s.len() ==> drawn_before(a, s[p]),
    ensures
        insert_in_order(s, a) == s.insert(p, a),
    decreases s.len(),
{
    if s.len() == 0 {
        assert(insert_in_order(s, a) =~= s.insert(p, a));
    } else if p == 0 {
        assert(insert_in_order(s, a) =~= s.insert(p, a));
    } else {
        let t = s.drop_first();
        assert forall|j: int| 0 <= j < p - 1 implies !drawn_before(a, #[trigger] t[j]) by {
            assert(t[j] == s[j + 1]);
        }
        if p - 1 < t.len() {
            assert(t[p - 1] == s[p]);
        }
        lemma_insert_at(t, a, p - 1);
        assert(insert_in_order(s, a) =~= s.insert(p, a));
    }
}

/// Inserting keeps the length up by one and adds only `a`.
proof fn lemma_insert_len(s: Seq<ObjectAttribute>, a: ObjectAttribute)
    ensures
        insert_in_order(s, a).len() == s.len() + 1,
    decreases s.len(),
{
    if s.len() > 0 {
        lemma_insert_len(s.drop_first(), a);
    }
}

fn is_drawn_before(a: &ObjectAttribute, b: &ObjectAttribute) -> (r: bool)
    ensures
        r == drawn_before(*a, *b),
{
    a.x_pos > b.x_pos || (a.x_pos == b.x_pos && a.oam_idx > b.oam_idx)
}

/// Puts `a` into `v` in drawing order.
fn insert_obj(v: &mut Vec<ObjectAttribute>, a: ObjectAttribute)
    requires
        old(v).len() < usize::MAX,
    ensures
        final(v)@ == insert_in_order(old(v)@, a),
{
    let mut p: usize = 0;
    while p < v.len() && !is_drawn_before(&a, &v[p])
        invariant
            p <= v.len(),
            forall|j: int| 0 <= j < p ==> !drawn_before(a, #[trigger] v@[j]),
        decreases v.len() - p,
    {
        p = p + 1;
    }
    proof {
        lemma_insert_at(v@, a, p as int);
    }
    v.insert(p, a);
}

/// Sorts the objects into drawing order: those with the larger X first, and
/// for equal X the later in OAM first, so that drawing them in turn leaves
/// the object with the smaller X (then the earlier in OAM) on top.
pub fn sort_obj_attributes_by_rev_render_order(objs: &mut Vec<ObjectAttribute>)
    requires
        old(objs).len() <= MAX_OBJS_PER_LINE,
    ensures
        final(objs)@ == in_draw_order(old(objs)@),
{
    let mut sorted: Vec<ObjectAttribute> = Vec::new();
    let mut i: usize = 0;
    while i < objs.len()
        invariant
            i <= objs.len() <= MAX_OBJS_PER_LINE,
            sorted@ == in_draw_order(objs@.take(i as int)),
            sorted.len() == i,
        decreases objs.len() - i,
    {
        let a = objs[i];
        proof {
            assert(objs@.take(i + 1).drop_last() =~= objs@.take(i as int));
            lemma_insert_len(sorted@, a);
        }
        insert_obj(&mut sorted, a);
        i = i + 1;
    }
    proof {
        assert(objs@.take(i as int) =~= objs@);
    }
    *objs = sorted;
}

/// Every object a column takes covers that column, and a property of all
/// the objects looked at holds of those taken.
pub proof fn lemma_objs_at_column_all(
    objs: Seq<ObjectAttribute>,
    screen_x: u32,
    n: nat,
    p: spec_fn(ObjectAttribute) -> bool,
)
    requires
        n <= objs.len(),
        forall|k: int| 0 <= k < n ==> p(#[trigger] objs[k]),
    ensures
        forall|j: int|
            0 <= j < objs_at_column(objs, screen_x, n).len() ==> p(
                #[trigger] objs_at_column(objs, screen_x, n)[j],
            ) && covers_column(objs_at_column(objs, screen_x, n)[j], screen_x),
        objs_at_column(objs, screen_x, n).len() <= n,
    decreases n,
{
    if n > 0 {
        lemma_objs_at_column_all(objs, screen_x, (n - 1) as nat, p);
        let prev = objs_at_column(objs, screen_x, (n - 1) as nat);
        let r = objs_at_column(objs, screen_x, n);
        assert forall|j: int| 0 <= j < r.len() implies p(#[trigger] r[j]) && covers_column(
            r[j],
            screen_x,
        ) by {
            if j < prev.len() {
                assert(r[j] == prev[j]);
            } else {
                assert(r[j] == objs[n - 1]);
            }
        }
    }
}

proof fn lemma_insert_in_order_all(s: Seq<ObjectAttribute>, a: ObjectAttribute, p: spec_fn(ObjectAttribute) -> bool)
    requires
        forall|k: int| 0 <= k < s.len() ==> p(#[trigger] s[k]),
        p(a),
    ensures
        forall|j: int| 0 <= j < insert_in_order(s, a).len() ==> p(#[trigger] insert_in_order(s, a)[j]),
    decreases s.len(),
{
    if s.len() > 0 && !drawn_before(a, s[0]) {
        let t = s.drop_first();
        assert forall|k: int| 0 <= k < t.len() implies p(#[trigger] t[k]) by {
            assert(t[k] == s[k + 1]);
        }
        lemma_insert_in_order_all(t, a, p);
        let r = insert_in_order(s, a);
        assert forall|j: int| 0 <= j < r.len() implies p(#[trigger] r[j]) by {
            if j > 0 {
                assert(r[j] == insert_in_order(t, a)[j - 1]);
            }
        }
    } else if s.len() > 0 {
        let r = insert_in_order(s, a);
        assert forall|j: int| 0 <= j < r.len() implies p(#[trigger] r[j]) by {
            if j > 0 {
                assert(r[j] == s[j - 1]);
            }
        }
    }
}

/// Putting objects in drawing order keeps what holds of each of them.
pub proof fn lemma_in_draw_order_all(s: Seq<ObjectAttribute>, p: spec_fn(ObjectAttribute) -> bool)
    requires
        forall|k: int| 0 <= k < s.len() ==> p(#[trigger] s[k]),
    ensures
        forall|j: int| 0 <= j < in_draw_order(s).len() ==> p(#[trigger] in_draw_order(s)[j]),
        in_draw_order(s).len() == s.len(),
    decreases s.len(),
{
    if s.len() > 0 {
        let t = s.drop_last();
        assert forall|k: int| 0 <= k < t.len() implies p(#[trigger] t[k]) by {
            assert(t[k] == s[k]);
        }
        lemma_in_draw_order_all(t, p);
        lemma_insert_in_order_all(in_draw_order(t), s.last(), p);
        lemma_insert_len(in_draw_order(t), s.last());
    }
}

/// No object of `s` comes after one it is drawn before.
pub open spec fn in_order(s: Seq<ObjectAttribute>) -> bool {
    forall|i: int, j: int| 0 <= i < j < s.len() ==> !drawn_before(#[trigger] s[j], #[trigger] s[i])
}

proof fn lemma_insert_keeps_order(s: Seq<ObjectAttribute>, a: ObjectAttribute)
    requires
        in_order(s),
    ensures
        in_order(insert_in_order(s, a)),
    decreases s.len(),
{
    if s.len() == 0 {
    } else if drawn_before(a, s[0]) {
        let r = insert_in_order(s, a);
        assert forall|i: int, j: int| 0 <= i < j < r.len() implies !drawn_before(
            #[trigger] r[j],
            #[trigger] r[i],
        ) by {
            if i == 0 {
                assert(r[j] == s[j - 1]);
                if j - 1 > 0 {
                    assert(!drawn_before(s[j - 1], s[0]));
                }
            } else {
                assert(r[i] == s[i - 1] && r[j] == s[j - 1]);
            }
        }
    } else {
        let t = s.drop_first();
        assert forall|i: int, j: int| 0 <= i < j < t.len() implies !drawn_before(
            #[trigger] t[j],
            #[trigger] t[i],
        ) by {
            assert(t[i] == s[i + 1] && t[j] == s[j + 1]);
        }
        lemma_insert_keeps_order(t, a);
        let below = |x: ObjectAttribute| !drawn_before(x, s[0]);
        assert forall|k: int| 0 <= k < t.len() implies below(#[trigger] t[k]) by {
            assert(t[k] == s[k + 1]);
        }
        lemma_insert_in_order_all(t, a, below);
        let r = insert_in_order(s, a);
        let u = insert_in_order(t, a);
        assert forall|i: int, j: int| 0 <= i < j < r.len() implies !drawn_before(
            #[trigger] r[j],
            #[trigger] r[i],
        ) by {
            if i == 0 {
                assert(r[j] == u[j - 1]);
                assert(below(u[j - 1]));
            } else {
                assert(r[i] == u[i - 1] && r[j] == u[j - 1]);
            }
        }
    }
}

/// Drawing order puts an object after every object it is to be drawn over:
/// the objects with the larger X come first, and for equal X the later in
/// OAM, so the object with the smaller X (then the earlier in OAM) is
/// drawn last, on top.
pub proof fn lemma_draw_order_sorted(s: Seq<ObjectAttribute>)
    ensures
        in_order(in_draw_order(s)),
    decreases s.len(),
{
    if s.len() > 0 {
        lemma_draw_order_sorted(s.drop_last());
        lemma_insert_keeps_order(in_draw_order(s.drop_last()), s.last());
    }
}

} // verus!
