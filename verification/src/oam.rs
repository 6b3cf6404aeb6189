//! Object attribute memory: the 40 sprites, four bytes each.
use vstd::prelude::*;

use crate::memory_map::{OBJ_ATTRIBUTE_TABLE_SIZE, OBJ_ATTRIBUTE_TABLE_START};
use crate::GbError;

verus! {

pub const OBJ_ATTR_SIZE: usize = 4;
pub const OBJ_ATTR_COUNT: usize = 40;

/// The most sprites drawn on one line.
pub const MAX_OBJS_PER_LINE: usize = 10;

/// One sprite: its position on screen (top-left corner), tile, and flags.
#[derive(Clone, Copy, Debug, PartialEq, Eq, Structural)]
pub struct ObjAttribute {
    top: i16,
    left: i16,
    tile_index: u8,
    bg_win_prio: bool,
    flip_y: bool,
    flip_x: bool,
    palette_id: u8,
}

impl ObjAttribute {
    /// The position stays within what a byte minus 16 (vertically) or 8
    /// (horizontally) can give, and the palette is 0 or 1.
    #[verifier::type_invariant]
    spec fn wf(self) -> bool {
        &&& -16 <= self.top <= 239
        &&& -8 <= self.left <= 247
        &&& self.palette_id <= 1
    }

    /// The bounds every sprite keeps: a top from -16 to 239, a left edge
    /// from -8 to 247, palette 0 or 1.
    pub open spec fn valid(self) -> bool {
        &&& -16 <= self.spec_top() <= 239
        &&& -8 <= self.spec_left() <= 247
        &&& self.spec_palette_id() <= 1
    }

    pub closed spec fn spec_top(self) -> i16 {
        self.top
    }

    pub closed spec fn spec_left(self) -> i16 {
        self.left
    }

    pub closed spec fn spec_tile_index(self) -> u8 {
        self.tile_index
    }

    pub closed spec fn spec_palette_id(self) -> u8 {
        self.palette_id
    }

    pub closed spec fn spec_flags(self) -> (bool, bool, bool) {
        (self.bg_win_prio, self.flip_y, self.flip_x)
    }

    /// The sprite after byte `k` of its entry is written with `value`.
    pub closed spec fn with_byte(self, k: int, value: u8) -> ObjAttribute {
        if k == 0 {
            ObjAttribute { top: (value - 16) as i16, ..self }
        } else if k == 1 {
            ObjAttribute { left: (value - 8) as i16, ..self }
        } else if k == 2 {
            ObjAttribute { tile_index: value, ..self }
        } else {
            ObjAttribute {
                bg_win_prio: value & 0x80 != 0,
                flip_y: value & 0x40 != 0,
                flip_x: value & 0x20 != 0,
                palette_id: (value / 16) % 2,
                ..self
            }
        }
    }

    /// What writing byte `k` of an entry does to each field: byte 0 sets
    /// the top to `value - 16`, byte 1 the left edge to `value - 8`, byte 2
    /// the tile, byte 3 the flags (bit 7 priority, 6 Y flip, 5 X flip, 4
    /// palette); the other fields keep their values.
    pub proof fn lemma_with_byte(self, k: int, value: u8)
        requires
            0 <= k < 4,
        ensures
            ({
                let n = self.with_byte(k, value);
                &&& n.spec_top() == (if k == 0 { value - 16 } else { self.spec_top() as int })
                &&& n.spec_left() == (if k == 1 { value - 8 } else { self.spec_left() as int })
                &&& n.spec_tile_index() == (if k == 2 { value } else { self.spec_tile_index() })
                &&& n.spec_flags() == (if k == 3 {
                    (value & 0x80 != 0, value & 0x40 != 0, value & 0x20 != 0)
                } else {
                    self.spec_flags()
                })
                &&& n.spec_palette_id() == (if k == 3 { (value / 16) % 2 } else { self.spec_palette_id() })
            }),
    {
    }

    /// The sprite every field of which is zero or false.
    pub closed spec fn zeroed() -> ObjAttribute {
        ObjAttribute { top: 0, left: 0, tile_index: 0, bg_win_prio: false, flip_y: false, flip_x: false, palette_id: 0 }
    }

    fn write_attr(&mut self, attr_id: usize, value: u8)
        requires
            attr_id <= 3,
        ensures
            *final(self) == old(self).with_byte(attr_id as int, value),
    {
        proof {
            use_type_invariant(&*self);
        }
        match attr_id {
            0 => self.top = value as i16 - 16,
            1 => self.left = value as i16 - 8,
            2 => self.tile_index = value,
            _ => {
                proof {
                    assert((value & 0b00010000) >> 4u8 == (value / 16) % 2) by (bit_vector);
                }
                self.bg_win_prio = (value & 0b10000000) != 0;
                self.flip_y = (value & 0b01000000) != 0;
                self.flip_x = (value & 0b00100000) != 0;
                self.palette_id = (value & 0b00010000) >> 4u8;
            },
        }
    }

    pub fn top(&self) -> (r: i16)
        ensures
            r == self.spec_top(),
            -16 <= r <= 239,
    {
        proof {
            use_type_invariant(self);
        }
        self.top
    }

    pub fn bottom(&self) -> (r: i16)
        ensures
            r == self.spec_top() + 8,
    {
        proof {
            use_type_invariant(self);
        }
        self.top + 8
    }

    pub fn left(&self) -> (r: i16)
        ensures
            r == self.spec_left(),
            -8 <= r <= 247,
    {
        proof {
            use_type_invariant(self);
        }
        self.left
    }

    pub fn right(&self) -> (r: i16)
        ensures
            r == self.spec_left() + 8,
    {
        proof {
            use_type_invariant(self);
        }
        self.left + 8
    }

    pub fn tile_index(&self) -> (r: u8)
        ensures
            r == self.spec_tile_index(),
    {
        self.tile_index
    }

    pub fn palette_id(&self) -> (r: u8)
        ensures
            r == self.spec_palette_id(),
            r <= 1,
    {
        proof {
            use_type_invariant(self);
        }
        self.palette_id
    }

    pub fn flip_x(&self) -> (r: bool)
        ensures
            r == self.spec_flags().2,
    {
        self.flip_x
    }

    pub fn flip_y(&self) -> (r: bool)
        ensures
            r == self.spec_flags().1,
    {
        self.flip_y
    }

    pub fn bg_win_prio(&self) -> (r: bool)
        ensures
            r == self.spec_flags().0,
    {
        self.bg_win_prio
    }
}

impl Default for ObjAttribute {
    fn default() -> (r: Self)
        ensures
            r == ObjAttribute::zeroed(),
            r.spec_top() == 0,
            r.spec_left() == 0,
            r.spec_tile_index() == 0,
            r.spec_palette_id() == 0,
            r.spec_flags() == (false, false, false),
    {
        ObjAttribute { top: 0, left: 0, tile_index: 0, bg_win_prio: false, flip_y: false, flip_x: false, palette_id: 0 }
    }
}

/// Whether a sprite covers line `ly`: its 8 rows start at its top.
pub open spec fn on_line(o: ObjAttribute, ly: u8) -> bool {
    o.spec_top() + 8 > ly && o.spec_top() <= ly
}

/// The test of whether a sprite covers line `ly`.
pub open spec fn covers(ly: u8) -> spec_fn(ObjAttribute) -> bool {
    |o: ObjAttribute| on_line(o, ly)
}

/// The sprites that cover line `ly`, in table order, at most ten.
pub open spec fn visible_objs(attrs: Seq<ObjAttribute>, ly: u8) -> Seq<ObjAttribute> {
    let v = attrs.filter(covers(ly));
    if v.len() > 10 { v.take(10) } else { v }
}

/// Where a stable insertion places `x` in `s`: before the first sprite
/// whose left edge is past `x`'s.
pub open spec fn insert_pos(s: Seq<ObjAttribute>, x: ObjAttribute) -> int
    decreases s.len(),
{
    if s.len() == 0 {
        0
    } else if s[0].spec_left() > x.spec_left() {
        0
    } else {
        1 + insert_pos(s.drop_first(), x)
    }
}

/// The sprites sorted by left edge, stably (sprites with equal left edges
/// keep their order): the insertion sort of `s`.
pub open spec fn sorted_stable(s: Seq<ObjAttribute>) -> Seq<ObjAttribute>
    decreases s.len(),
{
    if s.len() == 0 {
        s
    } else {
        let r = sorted_stable(s.drop_last());
        r.insert(insert_pos(r, s.last()), s.last())
    }
}

/// Sorted by left edge.
pub open spec fn sorted_by_left(s: Seq<ObjAttribute>) -> bool {
    forall|i: int, j: int| 0 <= i < j < s.len() ==> s[i].spec_left() <= s[j].spec_left()
}

/// The 40 sprites of the table.
pub struct ObjAttributeMemory {
    attributes: [ObjAttribute; 40],
}

impl View for ObjAttributeMemory {
    type V = Seq<ObjAttribute>;

    closed spec fn view(&self) -> Seq<ObjAttribute> {
        self.attributes@
    }
}

impl ObjAttributeMemory {
    /// A table of 40 sprites whose entries hold only zeros.
    pub fn new() -> (r: Self)
        ensures
            r@.len() == OBJ_ATTR_COUNT,
            forall|i: int| 0 <= i < 40 ==> r@[i] == ObjAttribute::zeroed(),
            r@ == Seq::new(40, |i: int| ObjAttribute::zeroed()),
    {
        let zero = ObjAttribute::default();
        let attributes = [zero; 40];
        let r = Self { attributes };
        assert(r@ =~= Seq::new(40, |i: int| ObjAttribute::zeroed()));
        r
    }

    /// Writes a byte of the table: byte `addr % 4` of the entry of sprite
    /// `(addr - 0xFE00) / 4`.
    pub fn write_byte(&mut self, addr: u16, value: u8) -> (r: Result<(), GbError>)
        requires
            OBJ_ATTRIBUTE_TABLE_START <= addr < OBJ_ATTRIBUTE_TABLE_START + OBJ_ATTRIBUTE_TABLE_SIZE,
        ensures
            r is Ok,
            final(self)@ == old(self)@.update(
                (addr - 0xFE00) / 4,
                old(self)@[(addr - 0xFE00) / 4].with_byte((addr - 0xFE00) % 4, value),
            ),
    {
        let rel_addr = (addr - OBJ_ATTRIBUTE_TABLE_START) as usize;
        let obj_index = rel_addr / OBJ_ATTR_SIZE;
        let attr_id = rel_addr % OBJ_ATTR_SIZE;
        let mut attr = self.attributes[obj_index];
        attr.write_attr(attr_id, value);
        self.attributes[obj_index] = attr;
        Ok(())
    }

    /// The sprites that cover line `ly` (the first ten in table order),
    /// sorted by left edge.
    pub fn get_objs_at_line(&self, ly: u8) -> (r: Vec<ObjAttribute>)
        ensures
            r@ == sorted_stable(visible_objs(self@, ly)),
            sorted_by_left(r@),
            r@.to_multiset() == visible_objs(self@, ly).to_multiset(),
            forall|i: int| 0 <= i < r@.len() ==> #[trigger] r@[i].valid(),
    {
        let mut objs: Vec<ObjAttribute> = Vec::new();
        let ghost pred = covers(ly);
        let mut i: usize = 0;
        let n: usize = 40;
        proof {
            assert(self@.take(n as int) == self@);
        }
        while i < n
            invariant_except_break
                objs@.len() < MAX_OBJS_PER_LINE,
            invariant
                n == self@.len(),
                i <= n,
                pred == covers(ly),
                self@.take(n as int) == self@,
                forall|k: int| 0 <= k < objs@.len() ==> #[trigger] objs@[k].valid(),
                objs@ == self@.take(i as int).filter(pred),
            ensures
                objs@ == visible_objs(self@, ly),
            decreases n - i,
        {
            let attr = self.attributes[i];
            proof {
                use_type_invariant(&attr);
            }
            let ghost before = self@.take(i as int);
            proof {
                assert(self@.take(i as int + 1) == before.push(attr));
                before.lemma_filter_push(attr, pred);
                assert(pred(attr) == on_line(attr, ly));
            }
            if attr.bottom() > ly as i16 && attr.top() <= ly as i16 {
                objs.push(attr);
            }
            i += 1;
            if objs.len() == MAX_OBJS_PER_LINE {
                proof {
                    lemma_first_ten(self@, pred, i as int);
                }
                break;
            }
        }
        ObjAttributeMemory::sort_by_left(objs)
    }

    /// Stable insertion sort by left edge.
    fn sort_by_left(objs: Vec<ObjAttribute>) -> (r: Vec<ObjAttribute>)
        requires
            forall|i: int| 0 <= i < objs@.len() ==> #[trigger] objs@[i].valid(),
        ensures
            forall|i: int| 0 <= i < r@.len() ==> #[trigger] r@[i].valid(),
            r@ == sorted_stable(objs@),
            sorted_by_left(r@),
            r@.to_multiset() == objs@.to_multiset(),
    {
        let mut sorted: Vec<ObjAttribute> = Vec::new();
        let mut i: usize = 0;
        proof {
            assert(objs@.take(0) == sorted@);
            assert(sorted@.skip(0) == sorted@);
        }
        while i < objs.len()
            invariant
                i <= objs@.len(),
                forall|k: int| 0 <= k < objs@.len() ==> #[trigger] objs@[k].valid(),
                forall|k: int| 0 <= k < sorted@.len() ==> #[trigger] sorted@[k].valid(),
                sorted_by_left(sorted@),
                sorted@ == sorted_stable(objs@.take(i as int)),
                sorted@.to_multiset() == objs@.take(i as int).to_multiset(),
            decreases objs@.len() - i,
        {
            let obj = objs[i];
            let left = obj.left();
            let mut j: usize = 0;
            proof {
                assert(sorted@.skip(0) == sorted@);
            }
            while j < sorted.len() && sorted[j].left() <= left
                invariant
                    j <= sorted@.len(),
                    left == obj.spec_left(),
                    forall|k: int| 0 <= k < j ==> sorted@[k].spec_left() <= left,
                    insert_pos(sorted@, obj) == j + insert_pos(sorted@.skip(j as int), obj),
                decreases sorted@.len() - j,
            {
                proof {
                    assert(sorted@.skip(j as int).drop_first() == sorted@.skip(j as int + 1));
                }
                j += 1;
            }
            let ghost old_sorted = sorted@;
            sorted.insert(j, obj);
            proof {
                let t = objs@.take(i as int + 1);
                assert(t.drop_last() == objs@.take(i as int));
                assert(t.last() == obj);
                assert(insert_pos(old_sorted, obj) == j);
                vstd::seq_lib::to_multiset_insert(old_sorted, j as int, obj);
                assert(objs@.take(i as int + 1) == objs@.take(i as int).push(obj));
                vstd::seq_lib::to_multiset_build(objs@.take(i as int), obj);
                assert forall|a: int, b: int| 0 <= a < b < sorted@.len() implies sorted@[a].spec_left()
                    <= sorted@[b].spec_left() by {
                    if j < old_sorted.len() {
                        assert(old_sorted[j as int].spec_left() > left);
                    }
                }
            }
            i += 1;
        }
        proof {
            assert(objs@.take(objs@.len() as int) == objs@);
        }
        sorted
    }

    /// A copy of the 40 sprites.
    pub fn state(&self) -> (r: Vec<ObjAttribute>)
        ensures
            r@ == self@,
    {
        let mut state: Vec<ObjAttribute> = Vec::new();
        let mut i: usize = 0;
        while i < self.attributes.len()
            invariant
                i <= self@.len(),
                state@ == self@.take(i as int),
            decreases self@.len() - i,
        {
            state.push(self.attributes[i]);
            proof {
                assert(self@.take(i as int + 1) == self@.take(i as int).push(self@[i as int]));
            }
            i += 1;
        }
        proof {
            assert(self@.take(self@.len() as int) == self@);
        }
        state
    }
}

/// Once ten sprites of the first `i` cover the line, the first ten of all
/// that cover it are those.
proof fn lemma_first_ten(s: Seq<ObjAttribute>, pred: spec_fn(ObjAttribute) -> bool, i: int)
    requires
        0 <= i <= s.len(),
        s.take(i).filter(pred).len() == 10,
    ensures
        ({
            let v = s.filter(pred);
            (if v.len() > 10 { v.take(10) } else { v }) == s.take(i).filter(pred)
        }),
{
    assert(s == s.take(i) + s.skip(i));
    Seq::filter_distributes_over_add(s.take(i), s.skip(i), pred);
    let v = s.filter(pred);
    assert(v == s.take(i).filter(pred) + s.skip(i).filter(pred));
    if v.len() > 10 {
        assert(v.take(10) == s.take(i).filter(pred));
    } else {
        assert(s.skip(i).filter(pred).len() == 0);
        assert(v == s.take(i).filter(pred));
    }
}

} // verus!
