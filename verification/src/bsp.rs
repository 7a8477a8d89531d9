//! Reader for the parts of a compiled map that navigation needs: the player clip hull.
//!
//! The hull is a binary tree of planes. Its planes were moved outward by the player's box when the
//! map was compiled, so testing a single point against it tells whether a player fits there.
//! Coordinates stay the 32-bit patterns the file holds; which side of a plane a point lies on is
//! handed in.
use vstd::prelude::*;

verus! {

/// Contents of solid leaves.
pub const CONTENTS_SOLID: i32 = -2;

/// The file versions whose clip nodes hold 16-bit children, and the one with 32-bit children.
pub const VERSION_QUAKE: u32 = 29;
pub const VERSION_HALF_LIFE: u32 = 30;
pub const VERSION_BSP2: u32 = 0x3250_5342;

pub const LUMP_PLANES: usize = 1;
pub const LUMP_CLIPNODES: usize = 9;
pub const LUMP_MODELS: usize = 14;

pub const PLANE_SIZE: usize = 20;
pub const MODEL_SIZE: usize = 64;

/// A plane: normal and distance as bit patterns, and its axial kind.
#[derive(Clone, Copy, Debug)]
pub struct Plane {
    pub normal: [u32; 3],
    pub dist: u32,
    pub kind: i32,
}

/// A node of the clip hull. The first child is in front of the plane, the second behind it; a
/// negative child is the contents of a leaf.
#[derive(Clone, Copy, Debug)]
pub struct ClipNode {
    pub plane: u32,
    pub children: [i32; 2],
}

/// The parts of a map that navigation uses.
pub struct Bsp {
    pub planes: Vec<Plane>,
    pub clipnodes: Vec<ClipNode>,
    /// Root of the player hull of the world model.
    pub hull1_headnode: i32,
    /// Bounding box of the world model, as bit patterns.
    pub mins: [u32; 3],
    pub maxs: [u32; 3],
}

/// The little-endian number in the four bytes from `at`.
pub open spec fn le32(b: Seq<u8>, at: int) -> int {
    b[at] + 0x100 * b[at + 1] + 0x1_0000 * b[at + 2] + 0x100_0000 * b[at + 3]
}

/// The little-endian number in the two bytes from `at`.
pub open spec fn le16(b: Seq<u8>, at: int) -> int {
    b[at] + 0x100 * b[at + 1]
}

/// A number below 2^32 read as a signed one.
pub open spec fn signed32(x: int) -> int {
    if x < 0x8000_0000 {
        x
    } else {
        x - 0x1_0000_0000
    }
}

/// A number below 2^16 read as a signed one.
pub open spec fn signed16(x: int) -> int {
    if x < 0x8000 {
        x
    } else {
        x - 0x1_0000
    }
}

/// Offset and size of lump `index`, where the directory holds them and the lump lies in the file.
pub open spec fn lump_of(b: Seq<u8>, index: int) -> Option<(int, int)> {
    let entry = 4 + index * 8;
    if entry + 8 <= b.len() && le32(b, entry) + le32(b, entry + 4) <= b.len() {
        Some((le32(b, entry), le32(b, entry + 4)))
    } else {
        None
    }
}

pub open spec fn vec3_at(b: Seq<u8>, at: int, v: [u32; 3]) -> bool {
    v@[0] == le32(b, at) && v@[1] == le32(b, at + 4) && v@[2] == le32(b, at + 8)
}

pub open spec fn plane_at(b: Seq<u8>, at: int, p: Plane) -> bool {
    vec3_at(b, at, p.normal) && p.dist == le32(b, at + 12) && p.kind == signed32(le32(b, at + 16))
}

/// Bytes of one clip node.
pub open spec fn clipnode_size(wide: bool) -> int {
    if wide {
        12
    } else {
        8
    }
}

pub open spec fn clipnode_at(b: Seq<u8>, at: int, wide: bool, n: ClipNode) -> bool {
    &&& n.plane == le32(b, at)
    &&& wide ==> n.children@[0] == signed32(le32(b, at + 4)) && n.children@[1] == signed32(le32(b, at + 8))
    &&& !wide ==> n.children@[0] == signed16(le16(b, at + 4)) && n.children@[1] == signed16(le16(b, at + 6))
}

pub open spec fn supported_version(v: int) -> bool {
    v == VERSION_QUAKE || v == VERSION_HALF_LIFE || v == VERSION_BSP2
}

/// Whether the file holds a map: a known version, the three lumps, and a whole world model.
pub open spec fn well_formed_file(b: Seq<u8>) -> bool {
    &&& b.len() >= 4
    &&& supported_version(le32(b, 0))
    &&& lump_of(b, LUMP_PLANES as int) is Some
    &&& lump_of(b, LUMP_CLIPNODES as int) is Some
    &&& lump_of(b, LUMP_MODELS as int) matches Some(l) && l.1 >= MODEL_SIZE
}

/// What a map read from the file holds.
pub open spec fn holds_file(m: Bsp, b: Seq<u8>) -> bool {
    let wide = le32(b, 0) == VERSION_BSP2;
    let planes = lump_of(b, LUMP_PLANES as int)->0;
    let nodes = lump_of(b, LUMP_CLIPNODES as int)->0;
    let model = (lump_of(b, LUMP_MODELS as int)->0).0;
    &&& m.planes@.len() == planes.1 / PLANE_SIZE as int
    &&& forall|i: int|
        0 <= i < m.planes@.len() ==> plane_at(b, planes.0 + i * PLANE_SIZE, #[trigger] m.planes@[i])
    &&& m.clipnodes@.len() == nodes.1 / clipnode_size(wide)
    &&& forall|i: int|
        0 <= i < m.clipnodes@.len() ==> clipnode_at(
            b,
            nodes.0 + i * clipnode_size(wide),
            wide,
            #[trigger] m.clipnodes@[i],
        )
    &&& vec3_at(b, model, m.mins)
    &&& vec3_at(b, model + 12, m.maxs)
    &&& m.hull1_headnode == signed32(le32(b, model + 40))
}

/// A forward-only little-endian reader over the file.
pub struct Reader<'a> {
    pub bytes: &'a [u8],
    pub pos: usize,
}

impl<'a> Reader<'a> {
    pub fn new(bytes: &'a [u8]) -> (r: Reader<'a>)
        ensures
            r.bytes@ == bytes@,
            r.pos == 0,
    {
        Reader { bytes, pos: 0 }
    }

    /// A reader at byte `pos`, which may be the end of the file but not beyond it.
    pub fn at(&self, pos: usize) -> (r: Option<Reader<'a>>)
        ensures
            match r {
                Some(x) => pos <= self.bytes@.len() && x.bytes@ == self.bytes@ && x.pos == pos,
                None => pos > self.bytes@.len(),
            },
    {
        if pos <= self.bytes.len() {
            Some(Reader { bytes: self.bytes, pos })
        } else {
            None
        }
    }

    /// The next `n` bytes, if the file has them.
    pub fn take(&mut self, n: usize) -> (r: Option<&'a [u8]>)
        ensures
            final(self).bytes@ == old(self).bytes@,
            match r {
                Some(s) => old(self).pos + n <= old(self).bytes@.len() && final(self).pos == old(self).pos + n
                    && s@ == old(self).bytes@.subrange(old(self).pos as int, old(self).pos + n),
                None => old(self).pos + n > old(self).bytes@.len() && final(self).pos == old(self).pos,
            },
    {
        if self.pos > self.bytes.len() || n > self.bytes.len() - self.pos {
            return None;
        }
        let end: usize = self.pos + n;
        let s: &'a [u8] = vstd::slice::slice_subrange(self.bytes, self.pos, end);
        self.pos = end;
        Some(s)
    }

    pub fn u32(&mut self) -> (r: Option<u32>)
        ensures
            final(self).bytes@ == old(self).bytes@,
            match r {
                Some(x) => old(self).pos + 4 <= old(self).bytes@.len() && final(self).pos == old(self).pos + 4
                    && x == le32(old(self).bytes@, old(self).pos as int),
                None => old(self).pos + 4 > old(self).bytes@.len() && final(self).pos == old(self).pos,
            },
    {
        match self.take(4) {
            Some(s) => {
                Some(
                    s[0] as u32 + 0x100 * (s[1] as u32) + 0x1_0000 * (s[2] as u32) + 0x100_0000 * (s[3] as u32),
                )
            },
            None => None,
        }
    }

    pub fn i32(&mut self) -> (r: Option<i32>)
        ensures
            final(self).bytes@ == old(self).bytes@,
            match r {
                Some(x) => old(self).pos + 4 <= old(self).bytes@.len() && final(self).pos == old(self).pos + 4
                    && x == signed32(le32(old(self).bytes@, old(self).pos as int)),
                None => old(self).pos + 4 > old(self).bytes@.len() && final(self).pos == old(self).pos,
            },
    {
        match self.u32() {
            Some(x) => Some(
                if x < 0x8000_0000 {
                    x as i32
                } else {
                    (x as i64 - 0x1_0000_0000) as i32
                },
            ),
            None => None,
        }
    }

    pub fn i16(&mut self) -> (r: Option<i16>)
        ensures
            final(self).bytes@ == old(self).bytes@,
            match r {
                Some(x) => old(self).pos + 2 <= old(self).bytes@.len() && final(self).pos == old(self).pos + 2
                    && x == signed16(le16(old(self).bytes@, old(self).pos as int)),
                None => old(self).pos + 2 > old(self).bytes@.len() && final(self).pos == old(self).pos,
            },
    {
        match self.take(2) {
            Some(s) => {
                let x: u32 = s[0] as u32 + 0x100 * (s[1] as u32);
                Some(
                    if x < 0x8000 {
                        x as i16
                    } else {
                        (x as i32 - 0x1_0000) as i16
                    },
                )
            },
            None => None,
        }
    }

    /// The bit pattern of a 32-bit float.
    pub fn float_bits(&mut self) -> (r: Option<u32>)
        ensures
            final(self).bytes@ == old(self).bytes@,
            match r {
                Some(x) => old(self).pos + 4 <= old(self).bytes@.len() && final(self).pos == old(self).pos + 4
                    && x == le32(old(self).bytes@, old(self).pos as int),
                None => old(self).pos + 4 > old(self).bytes@.len() && final(self).pos == old(self).pos,
            },
    {
        self.u32()
    }

    /// The bit patterns of three floats.
    pub fn vec3(&mut self) -> (r: Option<[u32; 3]>)
        ensures
            final(self).bytes@ == old(self).bytes@,
            match r {
                Some(v) => old(self).pos + 12 <= old(self).bytes@.len() && final(self).pos == old(self).pos + 12
                    && vec3_at(old(self).bytes@, old(self).pos as int, v),
                None => old(self).pos + 12 > old(self).bytes@.len(),
            },
    {
        let x: u32 = match self.float_bits() {
            Some(x) => x,
            None => return None,
        };
        let y: u32 = match self.float_bits() {
            Some(y) => y,
            None => return None,
        };
        let z: u32 = match self.float_bits() {
            Some(z) => z,
            None => return None,
        };
        Some([x, y, z])
    }

    /// Offset and size of lump `index`.
    pub fn lump(&self, index: usize) -> (r: Option<(usize, usize)>)
        requires
            index < 15,
        ensures
            match r {
                Some(l) => lump_of(self.bytes@, index as int) == Some((l.0 as int, l.1 as int)),
                None => lump_of(self.bytes@, index as int) is None,
            },
    {
        let mut e = match self.at(4 + index * 8) {
            Some(e) => e,
            None => return None,
        };
        let off: u32 = match e.u32() {
            Some(x) => x,
            None => return None,
        };
        let size: u32 = match e.u32() {
            Some(x) => x,
            None => return None,
        };
        let end: u64 = off as u64 + size as u64;
        if end <= self.bytes.len() as u64 {
            Some((off as usize, size as usize))
        } else {
            None
        }
    }
}

fn read_planes(r: &Reader, off: usize, count: usize) -> (v: Vec<Plane>)
    requires
        off + count * PLANE_SIZE <= r.bytes@.len(),
    ensures
        v@.len() == count,
        forall|i: int|
            0 <= i < count ==> plane_at(r.bytes@, off + i * PLANE_SIZE, #[trigger] v@[i]),
{
    let mut v: Vec<Plane> = Vec::new();
    let mut p = Reader { bytes: r.bytes, pos: off };
    let mut i: usize = 0;
    while i < count
        invariant
            i <= count,
            off + count * PLANE_SIZE <= r.bytes@.len(),
            p.bytes@ == r.bytes@,
            p.pos == off + i * PLANE_SIZE,
            v@.len() == i,
            forall|j: int| 0 <= j < i ==> plane_at(r.bytes@, off + j * PLANE_SIZE, #[trigger] v@[j]),
        decreases count - i,
    {
        let at: Ghost<int> = Ghost(p.pos as int);
        assert(at@ + PLANE_SIZE <= r.bytes@.len()) by (nonlinear_arith)
            requires
                at@ == off + i * PLANE_SIZE,
                i < count,
                off + count * PLANE_SIZE <= r.bytes@.len(),
        ;
        let normal: [u32; 3] = p.vec3().unwrap();
        let dist: u32 = p.float_bits().unwrap();
        let kind: i32 = p.i32().unwrap();
        let plane = Plane { normal, dist, kind };
        assert(plane_at(r.bytes@, at@, plane));
        v.push(plane);
        i = i + 1;
        assert(p.pos == off + i * PLANE_SIZE) by (nonlinear_arith)
            requires
                p.pos == at@ + 20,
                at@ == off + (i - 1) * PLANE_SIZE,
                PLANE_SIZE == 20,
        ;
    }
    v
}

fn read_clipnodes(r: &Reader, off: usize, count: usize, wide: bool) -> (v: Vec<ClipNode>)
    requires
        off + count * clipnode_size(wide) <= r.bytes@.len(),
    ensures
        v@.len() == count,
        forall|i: int|
            0 <= i < count ==> clipnode_at(
                r.bytes@,
                off + i * clipnode_size(wide),
                wide,
                #[trigger] v@[i],
            ),
{
    let mut v: Vec<ClipNode> = Vec::new();
    let mut p = Reader { bytes: r.bytes, pos: off };
    let mut i: usize = 0;
    let ghost elem = clipnode_size(wide);
    while i < count
        invariant
            i <= count,
            elem == clipnode_size(wide),
            off + count * elem <= r.bytes@.len(),
            p.bytes@ == r.bytes@,
            p.pos == off + i * elem,
            v@.len() == i,
            forall|j: int| 0 <= j < i ==> clipnode_at(r.bytes@, off + j * elem, wide, #[trigger] v@[j]),
        decreases count - i,
    {
        let at: Ghost<int> = Ghost(p.pos as int);
        assert(at@ + elem <= r.bytes@.len()) by (nonlinear_arith)
            requires
                at@ == off + i * elem,
                elem >= 0,
                i < count,
                off + count * elem <= r.bytes@.len(),
        ;
        let plane: u32 = p.u32().unwrap();
        let children: [i32; 2] = if wide {
            let a: i32 = p.i32().unwrap();
            let b: i32 = p.i32().unwrap();
            [a, b]
        } else {
            let a: i16 = p.i16().unwrap();
            let b: i16 = p.i16().unwrap();
            [a as i32, b as i32]
        };
        let node = ClipNode { plane, children };
        assert(clipnode_at(r.bytes@, at@, wide, node));
        v.push(node);
        i = i + 1;
        assert(p.pos == off + i * elem) by (nonlinear_arith)
            requires
                p.pos == at@ + elem,
                at@ == off + (i - 1) * elem,
        ;
    }
    v
}

impl Bsp {
    /// Read a map; `None` where the file is too short, of an unknown version, or malformed.
    pub fn parse(bytes: &[u8]) -> (r: Option<Bsp>)
        ensures
            match r {
                Some(m) => well_formed_file(bytes@) && holds_file(m, bytes@),
                None => !well_formed_file(bytes@),
            },
    {
        let r = Reader::new(bytes);
        let mut head = match r.at(0) {
            Some(x) => x,
            None => return None,
        };
        let version: u32 = match head.u32() {
            Some(x) => x,
            None => return None,
        };
        if version != VERSION_QUAKE && version != VERSION_HALF_LIFE && version != VERSION_BSP2 {
            return None;
        }
        let wide: bool = version == VERSION_BSP2;

        let planes_at: (usize, usize) = match r.lump(LUMP_PLANES) {
            Some(l) => l,
            None => return None,
        };
        let nplanes: usize = planes_at.1 / PLANE_SIZE;
        assert(planes_at.0 + nplanes * PLANE_SIZE <= bytes@.len()) by (nonlinear_arith)
            requires
                nplanes == planes_at.1 / PLANE_SIZE,
                PLANE_SIZE == 20,
                planes_at.0 + planes_at.1 <= bytes@.len(),
        ;
        let planes = read_planes(&r, planes_at.0, nplanes);

        let nodes_at: (usize, usize) = match r.lump(LUMP_CLIPNODES) {
            Some(l) => l,
            None => return None,
        };
        let elem: usize = if wide {
            12
        } else {
            8
        };
        let nnodes: usize = nodes_at.1 / elem;
        assert(nodes_at.0 + nnodes * elem <= bytes@.len()) by (nonlinear_arith)
            requires
                nnodes == nodes_at.1 / elem,
                elem > 0,
                nodes_at.0 + nodes_at.1 <= bytes@.len(),
        ;
        let clipnodes = read_clipnodes(&r, nodes_at.0, nnodes, wide);

        let model_at: (usize, usize) = match r.lump(LUMP_MODELS) {
            Some(l) => l,
            None => return None,
        };
        if model_at.1 < MODEL_SIZE {
            return None;
        }
        let mut m = Reader { bytes, pos: model_at.0 };
        let mins: [u32; 3] = m.vec3().unwrap();
        let maxs: [u32; 3] = m.vec3().unwrap();
        let _origin: [u32; 3] = m.vec3().unwrap();
        let _headnode0: i32 = m.i32().unwrap();
        let hull1_headnode: i32 = m.i32().unwrap();
        Some(Bsp { planes, clipnodes, hull1_headnode, mins, maxs })
    }

    /// The contents of the hull under `headnode` at a point, where `behind` tells for each plane
    /// whether the point lies behind it. A child or plane that the file does not hold counts as
    /// solid, and so does a plane across an axis that there is not. `None` where the nodes lead round in a circle, so that no leaf is ever reached.
    pub fn hull_contents(&self, headnode: i32, behind: &Vec<bool>) -> (r: Option<i32>)
        requires
            behind@.len() == self.planes@.len(),
        ensures
            match r {
                Some(c) => leads_to(*self, behind@, headnode as int, c as int),
                None => never_ends(*self, behind@, headnode as int),
            },
    {
        let n: usize = self.clipnodes.len();
        let mut visited: Vec<bool> = Vec::new();
        let mut i: usize = 0;
        while i < n
            invariant
                i <= n,
                visited@.len() == i,
                forall|j: int| 0 <= j < i ==> !visited@[j],
            decreases n - i,
        {
            visited.push(false);
            i = i + 1;
        }
        let mut num: i32 = headnode;
        let ghost head = headnode as int;
        let ghost mut k: nat = 0;
        let ghost mut seen: Set<int> = Set::empty();
        while num >= 0
            invariant
                behind@.len() == self.planes@.len(),
                n == self.clipnodes@.len(),
                visited@.len() == n,
                head == headnode,
                num == after(*self, behind@, head, k),
                forall|j: nat| j < k ==> 0 <= #[trigger] after(*self, behind@, head, j) < n,
                forall|j: nat| j < k ==> visited@[#[trigger] after(*self, behind@, head, j)],
                forall|x: int|
                    0 <= x < n && visited@[x] ==> exists|j: nat|
                        j < k && #[trigger] after(*self, behind@, head, j) == x,
                seen.finite(),
                seen.len() == k,
                forall|x: int| seen.contains(x) <==> 0 <= x < n && visited@[x],
            decreases n + 1 - k,
        {
            proof {
                assert(seen.subset_of(vstd::set_lib::set_int_range(0, n as int)));
                vstd::set_lib::lemma_int_range(0, n as int);
                vstd::set_lib::lemma_len_subset(seen, vstd::set_lib::set_int_range(0, n as int));
                lemma_after_step(*self, behind@, head, k);
            }
            let at: usize = num as usize;
            if at >= n {
                assert(leads_to(*self, behind@, head, CONTENTS_SOLID as int)) by {
                    assert(after(*self, behind@, head, k + 1) == CONTENTS_SOLID);
                }
                return Some(CONTENTS_SOLID);
            }
            let plane: usize = self.clipnodes[at].plane as usize;
            if plane >= self.planes.len() || self.planes[plane].kind < 0 {
                assert(leads_to(*self, behind@, head, CONTENTS_SOLID as int)) by {
                    assert(after(*self, behind@, head, k + 1) == CONTENTS_SOLID);
                }
                return Some(CONTENTS_SOLID);
            }
            if visited[at] {
                proof {
                    let j = choose|j: nat| j < k && #[trigger] after(*self, behind@, head, j) == num;
                    assert forall|m: nat| #[trigger] after(*self, behind@, head, m) >= 0 by {
                        lemma_circle(*self, behind@, head, j, k, m);
                    }
                }
                return None;
            }
            visited.set(at, true);
            let next: i32 = if behind[plane] {
                self.clipnodes[at].children[1]
            } else {
                self.clipnodes[at].children[0]
            };
            proof {
                let grown = seen.insert(at as int);
                assert forall|x: int| grown.contains(x) <==> 0 <= x < n && visited@[x] by {}
                assert forall|x: int| 0 <= x < n && visited@[x] implies exists|j: nat|
                    j < k + 1 && #[trigger] after(*self, behind@, head, j) == x by {
                    if x == at {
                        assert(after(*self, behind@, head, k) == x);
                    } else {
                        let j = choose|j: nat| j < k && #[trigger] after(*self, behind@, head, j) == x;
                        assert(j < k + 1);
                    }
                }
                seen = grown;
                k = k + 1;
            }
            num = next;
        }
        assert(leads_to(*self, behind@, head, num as int));
        Some(num)
    }

    /// The contents of the player hull of the world at a point.
    pub fn hull1_contents(&self, behind: &Vec<bool>) -> (r: Option<i32>)
        requires
            behind@.len() == self.planes@.len(),
        ensures
            match r {
                Some(c) => leads_to(*self, behind@, self.hull1_headnode as int, c as int),
                None => never_ends(*self, behind@, self.hull1_headnode as int),
            },
    {
        self.hull_contents(self.hull1_headnode, behind)
    }

    /// Whether a player centred at the point would stand in solid ground.
    pub fn is_solid(&self, behind: &Vec<bool>) -> (r: bool)
        requires
            behind@.len() == self.planes@.len(),
        ensures
            r == leads_to(*self, behind@, self.hull1_headnode as int, CONTENTS_SOLID as int),
    {
        match self.hull1_contents(behind) {
            Some(c) => {
                proof {
                    if leads_to(*self, behind@, self.hull1_headnode as int, CONTENTS_SOLID as int) {
                        one_contents(*self, behind@, self.hull1_headnode as int, c as int, CONTENTS_SOLID as int);
                    }
                }
                c == CONTENTS_SOLID
            },
            None => false,
        }
    }
}

/// One step of the walk: from a node to the child on the point's side, or to solid where the node, its
/// plane or the axis of its plane does not exist. A leaf stays where it is.
pub open spec fn descend(m: Bsp, behind: Seq<bool>, num: int) -> int {
    if num < 0 {
        num
    } else if num >= m.clipnodes@.len() || m.clipnodes@[num].plane >= m.planes@.len()
        || m.planes@[m.clipnodes@[num].plane as int].kind < 0 {
        CONTENTS_SOLID as int
    } else if behind[m.clipnodes@[num].plane as int] {
        m.clipnodes@[num].children@[1] as int
    } else {
        m.clipnodes@[num].children@[0] as int
    }
}

/// Where the walk from `num` stands after some steps.
pub open spec fn after(m: Bsp, behind: Seq<bool>, num: int, steps: nat) -> int
    decreases steps,
{
    if steps == 0 {
        num
    } else {
        descend(m, behind, after(m, behind, num, (steps - 1) as nat))
    }
}

/// The walk from `num` ends on a leaf with contents `c`.
pub open spec fn leads_to(m: Bsp, behind: Seq<bool>, num: int, c: int) -> bool {
    c < 0 && exists|steps: nat| #[trigger] after(m, behind, num, steps) == c
}

/// The walk from `num` never reaches a leaf.
pub open spec fn never_ends(m: Bsp, behind: Seq<bool>, num: int) -> bool {
    forall|steps: nat| #[trigger] after(m, behind, num, steps) >= 0
}

proof fn lemma_after_step(m: Bsp, behind: Seq<bool>, num: int, steps: nat)
    ensures
        after(m, behind, num, steps + 1) == descend(m, behind, after(m, behind, num, steps)),
{
}

/// Once two steps stand on the same node, every later step repeats an earlier one.
proof fn lemma_circle(m: Bsp, behind: Seq<bool>, num: int, j: nat, k: nat, at: nat)
    requires
        j < k,
        after(m, behind, num, j) == after(m, behind, num, k),
        after(m, behind, num, k) >= 0,
        forall|i: nat| i < k ==> #[trigger] after(m, behind, num, i) >= 0,
    ensures
        after(m, behind, num, at) >= 0,
    decreases at,
{
    if at > k {
        lemma_same_onward(m, behind, num, j, k, (at - k) as nat);
        lemma_circle(m, behind, num, j, k, (j + (at - k)) as nat);
    }
}

proof fn lemma_same_onward(m: Bsp, behind: Seq<bool>, num: int, j: nat, k: nat, d: nat)
    requires
        after(m, behind, num, j) == after(m, behind, num, k),
    ensures
        after(m, behind, num, j + d) == after(m, behind, num, k + d),
    decreases d,
{
    if d > 0 {
        lemma_same_onward(m, behind, num, j, k, (d - 1) as nat);
        lemma_after_step(m, behind, num, (j + d - 1) as nat);
        lemma_after_step(m, behind, num, (k + d - 1) as nat);
    }
}

proof fn lemma_leaf_stays(m: Bsp, behind: Seq<bool>, num: int, steps: nat, d: nat)
    requires
        after(m, behind, num, steps) < 0,
    ensures
        after(m, behind, num, steps + d) == after(m, behind, num, steps),
    decreases d,
{
    if d > 0 {
        lemma_leaf_stays(m, behind, num, steps, (d - 1) as nat);
        lemma_after_step(m, behind, num, (steps + d - 1) as nat);
    }
}

/// A point has one contents: a walk cannot end on two different leaves, nor end and go on for ever.
pub proof fn one_contents(m: Bsp, behind: Seq<bool>, num: int, a: int, b: int)
    requires
        leads_to(m, behind, num, a),
    ensures
        leads_to(m, behind, num, b) ==> a == b,
        !never_ends(m, behind, num),
{
    let i = choose|steps: nat| #[trigger] after(m, behind, num, steps) == a;
    assert(after(m, behind, num, i) < 0);
    if leads_to(m, behind, num, b) {
        let j = choose|steps: nat| #[trigger] after(m, behind, num, steps) == b;
        if i <= j {
            lemma_leaf_stays(m, behind, num, i, (j - i) as nat);
        } else {
            lemma_leaf_stays(m, behind, num, j, (i - j) as nat);
        }
    }
}

/// Numbers in a map file stand low byte first, and are read as signed by their highest bit.
pub proof fn numbers_stand_low_byte_first(b: Seq<u8>, at: int, x: int)
    requires
        0 <= at,
        at + 4 <= b.len(),
        0 <= x < 0x1_0000_0000,
        b[at] == x % 256,
        b[at + 1] == (x / 256) % 256,
        b[at + 2] == (x / 65536) % 256,
        b[at + 3] == x / 16777216,
    ensures
        le32(b, at) == x,
        le16(b, at) == x % 65536,
        x < 0x8000_0000 ==> signed32(x) == x,
        x >= 0x8000_0000 ==> signed32(x) == x - 4294967296,
        x < 0x8000 ==> signed16(x) == x,
        0x8000 <= x < 0x1_0000 ==> signed16(x) == x - 65536,
{
}

/// A lump is found by its entry in the header, and lies within the file.
pub proof fn lumps_lie_within_the_file(b: Seq<u8>, index: int)
    requires
        0 <= index,
    ensures
        lump_of(b, index) is Some ==> 12 + 8 * index <= b.len(),
        lump_of(b, index) matches Some(l) ==> l.0 == le32(b, 4 + 8 * index) && l.1 == le32(b, 8 + 8 * index) && l.0 + l.1
            <= b.len(),
        12 + 8 * index <= b.len() && le32(b, 4 + 8 * index) + le32(b, 8 + 8 * index) <= b.len() ==> lump_of(b, index)
            is Some,
{
}

/// The versions that are read, and how wide their clip nodes are.
pub proof fn three_versions_are_read(v: int)
    ensures
        supported_version(v) <==> v == 29 || v == 30 || v == 0x3250_5342,
        clipnode_size(true) == 12,
        clipnode_size(false) == 8,
{
}

/// A point in the hull is followed from node to node: behind the plane to the second child, before it to
/// the first; a negative number is where it ends, and what the file does not hold is solid.
pub proof fn hulls_are_followed_by_planes(m: Bsp, behind: Seq<bool>, num: int)
    ensures
        num < 0 ==> descend(m, behind, num) == num,
        num >= m.clipnodes@.len() && num >= 0 ==> descend(m, behind, num) == -2,
        ({
            let n = m.clipnodes@[num];
            let known = 0 <= num < m.clipnodes@.len() && n.plane < m.planes@.len() && m.planes@[n.plane as int].kind >= 0;
            &&& known && behind[n.plane as int] ==> descend(m, behind, num) == n.children@[1]
            &&& known && !behind[n.plane as int] ==> descend(m, behind, num) == n.children@[0]
            &&& 0 <= num < m.clipnodes@.len() && !known ==> descend(m, behind, num) == -2
        }),
{
}

/// The parts of a plane, and of a node, stand in their order.
pub proof fn parts_stand_in_their_order(b: Seq<u8>, at: int, p: Plane, n: ClipNode, wide: bool)
    requires
        plane_at(b, at, p),
        clipnode_at(b, at, wide, n),
    ensures
        p.normal@[0] == le32(b, at) && p.normal@[1] == le32(b, at + 4) && p.normal@[2] == le32(b, at + 8),
        p.dist == le32(b, at + 12) && p.kind == signed32(le32(b, at + 16)),
        n.plane == le32(b, at),
        wide ==> n.children@[0] == signed32(le32(b, at + 4)) && n.children@[1] == signed32(le32(b, at + 8)),
        !wide ==> n.children@[0] == signed16(le16(b, at + 4)) && n.children@[1] == signed16(le16(b, at + 6)),
{
}

/// A map file has a known version, its planes, its clip nodes and a world model.
pub proof fn files_have_their_lumps(b: Seq<u8>)
    ensures
        well_formed_file(b) <==> {
            &&& b.len() >= 4
            &&& le32(b, 0) == 29 || le32(b, 0) == 30 || le32(b, 0) == 0x3250_5342
            &&& lump_of(b, 1) is Some && lump_of(b, 9) is Some
            &&& lump_of(b, 14) is Some && (lump_of(b, 14)->0).1 >= 64
        },
{
}

/// What is read of a file: as many planes and nodes as their lumps hold, in order, and the world's box
/// and hull.
pub proof fn maps_hold_their_file(m: Bsp, b: Seq<u8>, i: int)
    requires
        holds_file(m, b),
    ensures
        ({
            let planes = lump_of(b, 1)->0;
            let nodes = lump_of(b, 9)->0;
            let model = (lump_of(b, 14)->0).0;
            let wide = le32(b, 0) == 0x3250_5342;
            &&& m.planes@.len() == planes.1 / 20
            &&& wide ==> m.clipnodes@.len() == nodes.1 / 12
            &&& !wide ==> m.clipnodes@.len() == nodes.1 / 8
            &&& 0 <= i < m.planes@.len() ==> plane_at(b, planes.0 + 20 * i, m.planes@[i])
            &&& 0 <= i < m.clipnodes@.len() && wide ==> clipnode_at(b, nodes.0 + 12 * i, true, m.clipnodes@[i])
            &&& 0 <= i < m.clipnodes@.len() && !wide ==> clipnode_at(b, nodes.0 + 8 * i, false, m.clipnodes@[i])
            &&& m.mins@[0] == le32(b, model) && m.mins@[1] == le32(b, model + 4) && m.mins@[2] == le32(b, model + 8)
            &&& m.maxs@[0] == le32(b, model + 12) && m.maxs@[1] == le32(b, model + 16) && m.maxs@[2] == le32(b, model + 20)
            &&& m.hull1_headnode == signed32(le32(b, model + 40))
        }),
{
}

} // verus!
