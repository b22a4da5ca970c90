use vstd::prelude::*;

use crate::bytes::{words_be, words_le, words_to_bytes};
use crate::layout::{align_up, block_size_of, end_of, kind_size, lemma_end_push, offset_of, FieldKind};

verus! {

/// A three-component vector as it crosses to the GPU: the IEEE-754 bit
/// pattern of each 32-bit floating-point component.
#[derive(Clone, Copy, Debug, PartialEq, Eq, Structural)]
pub struct Vec3Bits {
    pub x: u32,
    pub y: u32,
    pub z: u32,
}

impl Vec3Bits {
    pub fn new(x: u32, y: u32, z: u32) -> (r: Vec3Bits)
        ensures
            r == (Vec3Bits { x, y, z }),
    {
        Vec3Bits { x, y, z }
    }

    /// The vector whose components are all `+0.0` (all bits clear).
    pub fn zero() -> (r: Vec3Bits)
        ensures
            r == (Vec3Bits { x: 0, y: 0, z: 0 }),
    {
        Vec3Bits { x: 0, y: 0, z: 0 }
    }
}

/// The camera as the shader sees it: the eye point and the basis vectors
/// `u` (right), `v` (up) and `w` (forward).
#[derive(Clone, Copy, Debug, PartialEq, Eq, Structural)]
pub struct CameraUniforms {
    pub origin: Vec3Bits,
    pub u: Vec3Bits,
    pub v: Vec3Bits,
    pub w: Vec3Bits,
}

/// The camera whose every bit is clear.
pub open spec fn zeroed_camera() -> CameraUniforms {
    CameraUniforms {
        origin: Vec3Bits { x: 0, y: 0, z: 0 },
        u: Vec3Bits { x: 0, y: 0, z: 0 },
        v: Vec3Bits { x: 0, y: 0, z: 0 },
        w: Vec3Bits { x: 0, y: 0, z: 0 },
    }
}

impl CameraUniforms {
    pub fn new(origin: Vec3Bits, u: Vec3Bits, v: Vec3Bits, w: Vec3Bits) -> (r: CameraUniforms)
        ensures
            r == (CameraUniforms { origin, u, v, w }),
    {
        CameraUniforms { origin, u, v, w }
    }

    pub fn zeroed() -> (r: CameraUniforms)
        ensures
            r == zeroed_camera(),
    {
        CameraUniforms {
            origin: Vec3Bits::zero(),
            u: Vec3Bits::zero(),
            v: Vec3Bits::zero(),
            w: Vec3Bits::zero(),
        }
    }
}

/// The uniform block uploaded every frame: the target size, the index of the
/// sample being accumulated and the camera.
#[derive(Clone, Copy, Debug, PartialEq, Eq, Structural)]
pub struct Uniforms {
    pub width: u32,
    pub height: u32,
    pub frame_count: u32,
    pub camera: CameraUniforms,
}

/// The fields of the uniform block in order, padding made explicit so that
/// every vector starts on a 16-byte boundary.
pub open spec fn uniform_block_fields() -> Seq<FieldKind> {
    seq![
        FieldKind::Scalar,
        FieldKind::Scalar,
        FieldKind::Scalar,
        FieldKind::Padding,
        FieldKind::Vector,
        FieldKind::Padding,
        FieldKind::Vector,
        FieldKind::Padding,
        FieldKind::Vector,
        FieldKind::Padding,
        FieldKind::Vector,
        FieldKind::Padding,
    ]
}

/// The schema of the uniform block.
pub fn uniform_fields() -> (r: Vec<FieldKind>)
    ensures
        r@ == uniform_block_fields(),
{
    let r = vec![
        FieldKind::Scalar,
        FieldKind::Scalar,
        FieldKind::Scalar,
        FieldKind::Padding,
        FieldKind::Vector,
        FieldKind::Padding,
        FieldKind::Vector,
        FieldKind::Padding,
        FieldKind::Vector,
        FieldKind::Padding,
        FieldKind::Vector,
        FieldKind::Padding,
    ];
    assert(r@ =~= uniform_block_fields());
    r
}

/// Byte size of the uniform block.
pub const UNIFORM_BLOCK_SIZE: usize = 80;

pub open spec fn vec_words(a: Vec3Bits) -> Seq<u32> {
    seq![a.x, a.y, a.z]
}

impl Uniforms {
    /// The 32-bit words of the block in memory order, padding as zero.
    pub open spec fn words(self) -> Seq<u32> {
        seq![self.width, self.height, self.frame_count, 0u32]
            + vec_words(self.camera.origin) + seq![0u32]
            + vec_words(self.camera.u) + seq![0u32]
            + vec_words(self.camera.v) + seq![0u32]
            + vec_words(self.camera.w) + seq![0u32]
    }

    /// The words of field `i` of `uniform_block_fields()`.
    pub open spec fn field_words(self, i: int) -> Seq<u32> {
        if i == 0 {
            seq![self.width]
        } else if i == 1 {
            seq![self.height]
        } else if i == 2 {
            seq![self.frame_count]
        } else if i == 4 {
            vec_words(self.camera.origin)
        } else if i == 6 {
            vec_words(self.camera.u)
        } else if i == 8 {
            vec_words(self.camera.v)
        } else if i == 10 {
            vec_words(self.camera.w)
        } else {
            seq![0u32]
        }
    }

    /// The state after accumulation has been restarted.
    pub open spec fn restarted(self) -> Uniforms {
        Uniforms { frame_count: 0, ..self }
    }

    /// The state after one more frame has been started with `camera`.
    pub open spec fn advanced(self, camera: CameraUniforms) -> Uniforms {
        Uniforms { frame_count: (self.frame_count + 1) as u32, camera, ..self }
    }

    /// A fresh block for a `width` by `height` target: no sample taken yet.
    pub fn new(width: u32, height: u32) -> (r: Uniforms)
        ensures
            r == (Uniforms { width, height, frame_count: 0, camera: zeroed_camera() }),
    {
        Uniforms { width, height, frame_count: 0, camera: CameraUniforms::zeroed() }
    }

    /// Throws away the accumulated samples: the next frame starts afresh.
    pub fn reset_samples(&mut self)
        ensures
            *final(self) == old(self).restarted(),
    {
        self.frame_count = 0;
    }

    /// Starts one frame: counts one more sample and takes the camera's
    /// current snapshot.
    pub fn begin_frame(&mut self, camera: &CameraUniforms)
        requires
            old(self).frame_count < u32::MAX,
        ensures
            *final(self) == old(self).advanced(*camera),
            final(self).frame_count == old(self).frame_count + 1,
    {
        self.frame_count = self.frame_count + 1;
        self.camera = *camera;
    }

    /// The block as 32-bit words in memory order.
    pub fn to_words(&self) -> (r: Vec<u32>)
        ensures
            r@ == self.words(),
    {
        let c = &self.camera;
        let r = vec![
            self.width, self.height, self.frame_count, 0u32,
            c.origin.x, c.origin.y, c.origin.z, 0u32,
            c.u.x, c.u.y, c.u.z, 0u32,
            c.v.x, c.v.y, c.v.z, 0u32,
            c.w.x, c.w.y, c.w.z, 0u32,
        ];
        assert(r@ =~= self.words());
        r
    }

    /// The bytes to upload into the uniform buffer: the words of the block in
    /// the byte order of the machine.
    pub fn to_bytes(&self) -> (r: Vec<u8>)
        ensures
            r@.len() == UNIFORM_BLOCK_SIZE,
            r@ == words_le(self.words()) || r@ == words_be(self.words()),
    {
        let ws = self.to_words();
        words_to_bytes(ws.as_slice())
    }
}

/// Offsets of the fields of `uniform_block_fields()`, one by one.
proof fn lemma_uniform_offsets()
    ensures
        ({
            let ks = uniform_block_fields();
            &&& offset_of(ks, 0) == 0
            &&& offset_of(ks, 1) == 4
            &&& offset_of(ks, 2) == 8
            &&& offset_of(ks, 3) == 12
            &&& offset_of(ks, 4) == 16
            &&& offset_of(ks, 5) == 28
            &&& offset_of(ks, 6) == 32
            &&& offset_of(ks, 7) == 44
            &&& offset_of(ks, 8) == 48
            &&& offset_of(ks, 9) == 60
            &&& offset_of(ks, 10) == 64
            &&& offset_of(ks, 11) == 76
            &&& block_size_of(ks) == 80
        }),
{
    let ks = uniform_block_fields();
    let s = FieldKind::Scalar;
    let p = FieldKind::Padding;
    let v = FieldKind::Vector;
    let p0 = Seq::<FieldKind>::empty();
    let p1 = p0.push(s);
    assert(end_of(p1) == 4) by {
        lemma_end_push(p0, s);
        assert(0nat % 4nat == 0);
        assert(align_up(0nat, 4nat) == 0nat);
    }
    assert(ks.take(0) =~= p0);
    let p2 = p1.push(s);
    assert(end_of(p2) == 8) by {
        lemma_end_push(p1, s);
        assert(4nat % 4nat == 0);
        assert(align_up(4nat, 4nat) == 4nat);
    }
    assert(ks.take(1) =~= p1);
    let p3 = p2.push(s);
    assert(end_of(p3) == 12) by {
        lemma_end_push(p2, s);
        assert(8nat % 4nat == 0);
        assert(align_up(8nat, 4nat) == 8nat);
    }
    assert(ks.take(2) =~= p2);
    let p4 = p3.push(p);
    assert(end_of(p4) == 16) by {
        lemma_end_push(p3, p);
        assert(12nat % 4nat == 0);
        assert(align_up(12nat, 4nat) == 12nat);
    }
    assert(ks.take(3) =~= p3);
    let p5 = p4.push(v);
    assert(end_of(p5) == 28) by {
        lemma_end_push(p4, v);
        assert(16nat % 16nat == 0);
        assert(align_up(16nat, 16nat) == 16nat);
    }
    assert(ks.take(4) =~= p4);
    let p6 = p5.push(p);
    assert(end_of(p6) == 32) by {
        lemma_end_push(p5, p);
        assert(28nat % 4nat == 0);
        assert(align_up(28nat, 4nat) == 28nat);
    }
    assert(ks.take(5) =~= p5);
    let p7 = p6.push(v);
    assert(end_of(p7) == 44) by {
        lemma_end_push(p6, v);
        assert(32nat % 16nat == 0);
        assert(align_up(32nat, 16nat) == 32nat);
    }
    assert(ks.take(6) =~= p6);
    let p8 = p7.push(p);
    assert(end_of(p8) == 48) by {
        lemma_end_push(p7, p);
        assert(44nat % 4nat == 0);
        assert(align_up(44nat, 4nat) == 44nat);
    }
    assert(ks.take(7) =~= p7);
    let p9 = p8.push(v);
    assert(end_of(p9) == 60) by {
        lemma_end_push(p8, v);
        assert(48nat % 16nat == 0);
        assert(align_up(48nat, 16nat) == 48nat);
    }
    assert(ks.take(8) =~= p8);
    let p10 = p9.push(p);
    assert(end_of(p10) == 64) by {
        lemma_end_push(p9, p);
        assert(60nat % 4nat == 0);
        assert(align_up(60nat, 4nat) == 60nat);
    }
    assert(ks.take(9) =~= p9);
    let p11 = p10.push(v);
    assert(end_of(p11) == 76) by {
        lemma_end_push(p10, v);
        assert(64nat % 16nat == 0);
        assert(align_up(64nat, 16nat) == 64nat);
    }
    assert(ks.take(10) =~= p10);
    let p12 = p11.push(p);
    assert(end_of(p12) == 80) by {
        lemma_end_push(p11, p);
        assert(76nat % 4nat == 0);
        assert(align_up(76nat, 4nat) == 76nat);
    }
    assert(ks.take(11) =~= p11);
    assert(ks =~= p12);
}

/// The uniform block's layout follows the padding rule: every vector field
/// starts on a 16-byte boundary, the explicit padding leaves no hidden gap
/// between fields (so the fields' declaration order is their memory order),
/// the block is 80 bytes, and the word image of any block holds each field
/// at the offset that the rule gives it.
pub proof fn lemma_uniform_block_layout(b: Uniforms)
    ensures
        ({
            let ks = uniform_block_fields();
            &&& offset_of(ks, 0) == 0
            &&& forall|i: int| 0 <= i < ks.len() && ks[i] == FieldKind::Vector
                ==> #[trigger] offset_of(ks, i) % 16 == 0
            &&& forall|i: int| 0 < i < ks.len()
                ==> #[trigger] offset_of(ks, i) == offset_of(ks, i - 1) + kind_size(ks[i - 1])
            &&& block_size_of(ks) == UNIFORM_BLOCK_SIZE
            &&& b.words().len() * 4 == UNIFORM_BLOCK_SIZE
            &&& forall|i: int| 0 <= i < ks.len() ==> b.words().subrange(
                (#[trigger] offset_of(ks, i) / 4) as int,
                ((offset_of(ks, i) + kind_size(ks[i])) / 4) as int,
            ) == b.field_words(i)
        }),
{
    lemma_uniform_offsets();
    let ks = uniform_block_fields();
    let ws = b.words();
    assert(ws.len() == 20);
    assert forall|i: int| 0 <= i < ks.len() implies ws.subrange(
        (#[trigger] offset_of(ks, i) / 4) as int,
        ((offset_of(ks, i) + kind_size(ks[i])) / 4) as int,
    ) == b.field_words(i) by {
        if i == 0 {
            assert(ws.subrange(0, 1) =~= b.field_words(i));
        } else if i == 1 {
            assert(ws.subrange(1, 2) =~= b.field_words(i));
        } else if i == 2 {
            assert(ws.subrange(2, 3) =~= b.field_words(i));
        } else if i == 3 {
            assert(ws.subrange(3, 4) =~= b.field_words(i));
        } else if i == 4 {
            assert(ws.subrange(4, 7) =~= b.field_words(i));
        } else if i == 5 {
            assert(ws.subrange(7, 8) =~= b.field_words(i));
        } else if i == 6 {
            assert(ws.subrange(8, 11) =~= b.field_words(i));
        } else if i == 7 {
            assert(ws.subrange(11, 12) =~= b.field_words(i));
        } else if i == 8 {
            assert(ws.subrange(12, 15) =~= b.field_words(i));
        } else if i == 9 {
            assert(ws.subrange(15, 16) =~= b.field_words(i));
        } else if i == 10 {
            assert(ws.subrange(16, 19) =~= b.field_words(i));
        } else {
            assert(ws.subrange(19, 20) =~= b.field_words(i));
        }
    }
}

} // verus!
