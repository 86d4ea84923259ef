//! Records shared with the shader, and their layout in GPU buffers.
//!
//! Every scalar is a 32-bit float, held as its bit pattern (see
//! [`crate::float32`]). A record is laid out as its scalars in declaration
//! order, four bytes each, least significant byte first.

use vstd::prelude::*;

use crate::float32::{f32_bits, f32_bits_of, HALF, NEG_HALF};

verus! {

/// A point, as the patterns of its `x` and `y`.
#[derive(Copy, Clone, Debug, PartialEq, Eq, Structural)]
pub struct Position(pub u32, pub u32);

/// A colour, as the patterns of its red, green, blue and alpha channels.
#[derive(Copy, Clone, Debug, PartialEq, Eq, Structural)]
pub struct Color(pub u32, pub u32, pub u32, pub u32);

/// An extent, as the patterns of its width and height.
#[derive(Copy, Clone, Debug, PartialEq, Eq, Structural)]
pub struct Size(pub u32, pub u32);

/// The uniform every draw call reads: the resolution of the target surface.
#[derive(Copy, Clone, Debug, PartialEq, Eq, Structural)]
pub struct Globals {
    pub resolution: Size,
}

/// The per-instance attributes of one widget rectangle.
#[derive(Copy, Clone, Debug, PartialEq, Eq, Structural)]
pub struct WidgetInstance {
    pub position: Position,
    pub size: Size,
    pub color: Color,
    pub radius: u32,
}

/// The scalar formats the shader's attributes use.
#[derive(Copy, Clone, Debug, PartialEq, Eq, Structural)]
pub enum VertexFormat {
    Float32,
    Float32x2,
    Float32x4,
}

/// Whether a vertex buffer advances per vertex or per instance.
#[derive(Copy, Clone, Debug, PartialEq, Eq, Structural)]
pub enum VertexStepMode {
    Vertex,
    Instance,
}

/// One attribute of a vertex buffer: its format, its byte offset in a record
/// and the shader location it feeds.
#[derive(Copy, Clone, Debug, PartialEq, Eq, Structural)]
pub struct VertexAttribute {
    pub format: VertexFormat,
    pub offset: u64,
    pub shader_location: u32,
}

/// How a pipeline reads one vertex buffer.
#[derive(Clone, Debug, PartialEq, Eq)]
pub struct VertexBufferLayout {
    pub array_stride: u64,
    pub step_mode: VertexStepMode,
    pub attributes: Vec<VertexAttribute>,
}

/// Bytes in one [`Position`] record.
pub const POSITION_STRIDE: u64 = 8;

/// Bytes in one [`Globals`] record.
pub const GLOBALS_SIZE: u64 = 8;

/// Bytes in one [`WidgetInstance`] record.
pub const INSTANCE_STRIDE: u64 = 36;

/// Scalars in one [`WidgetInstance`] record.
pub const INSTANCE_WORDS: usize = 9;

/// The four bytes of `word`, least significant first.
pub open spec fn le_bytes(word: u32) -> Seq<u8> {
    seq![
        (word & 0xff) as u8,
        ((word >> 8) & 0xff) as u8,
        ((word >> 16) & 0xff) as u8,
        ((word >> 24) & 0xff) as u8,
    ]
}

/// The word whose bytes, least significant first, are `b0`, `b1`, `b2`, `b3`.
pub open spec fn le_word(b0: u8, b1: u8, b2: u8, b3: u8) -> u32 {
    (b0 as u32) | ((b1 as u32) << 8) | ((b2 as u32) << 16) | ((b3 as u32) << 24)
}

/// The bytes of a sequence of words: those of each word in turn.
pub open spec fn words_bytes(words: Seq<u32>) -> Seq<u8> {
    Seq::new(4 * words.len(), |i: int| le_bytes(words[i / 4])[i % 4])
}

/// The words a byte sequence holds; bytes beyond the last whole word are
/// left out.
pub open spec fn bytes_words(bytes: Seq<u8>) -> Seq<u32> {
    Seq::new(
        bytes.len() / 4,
        |i: int| le_word(bytes[4 * i], bytes[4 * i + 1], bytes[4 * i + 2], bytes[4 * i + 3]),
    )
}

/// The two bytes of each index in turn, least significant first.
pub open spec fn indices_bytes(indices: Seq<u16>) -> Seq<u8> {
    Seq::new(
        2 * indices.len(),
        |i: int|
            if i % 2 == 0 {
                (indices[i / 2] & 0xff) as u8
            } else {
                (indices[i / 2] >> 8) as u8
            },
    )
}

/// The scalars of all instances in order, nine per instance.
pub open spec fn instances_words(instances: Seq<WidgetInstance>) -> Seq<u32> {
    Seq::new(9 * instances.len(), |i: int| instances[i / 9].words()[i % 9])
}

/// The scalars of all positions in order, two per position.
pub open spec fn positions_words(positions: Seq<Position>) -> Seq<u32> {
    Seq::new(2 * positions.len(), |i: int| positions[i / 2].words()[i % 2])
}

/// Splitting a word into bytes and joining them again gives the word back.
pub proof fn lemma_word_bytes_round_trip(word: u32)
    ensures
        le_word(le_bytes(word)[0], le_bytes(word)[1], le_bytes(word)[2], le_bytes(word)[3])
            == word,
{
    assert(((word & 0xff) as u8 as u32) | ((((word >> 8) & 0xff) as u8 as u32) << 8) | ((((word
        >> 16) & 0xff) as u8 as u32) << 16) | ((((word >> 24) & 0xff) as u8 as u32) << 24) == word)
        by (bit_vector);
}

/// Joining four bytes into a word and splitting it again gives the bytes back.
pub proof fn lemma_bytes_word_round_trip(b0: u8, b1: u8, b2: u8, b3: u8)
    ensures
        le_bytes(le_word(b0, b1, b2, b3)) == seq![b0, b1, b2, b3],
{
    let w = le_word(b0, b1, b2, b3);
    assert((w & 0xff) as u8 == b0 && ((w >> 8) & 0xff) as u8 == b1 && ((w >> 16) & 0xff) as u8
        == b2 && ((w >> 24) & 0xff) as u8 == b3) by (bit_vector)
        requires
            w == (b0 as u32) | ((b1 as u32) << 8) | ((b2 as u32) << 16) | ((b3 as u32) << 24),
    ;
    assert(le_bytes(w) =~= seq![b0, b1, b2, b3]);
}

/// Decoding the bytes of a word sequence recovers the sequence.
pub proof fn lemma_words_round_trip(words: Seq<u32>)
    ensures
        bytes_words(words_bytes(words)) == words,
{
    let bytes = words_bytes(words);
    assert forall|i: int| 0 <= i < words.len() implies bytes_words(bytes)[i] == words[i] by {
        lemma_word_bytes_round_trip(words[i]);
        assert(bytes[4 * i] == le_bytes(words[i])[0]);
        assert(bytes[4 * i + 1] == le_bytes(words[i])[1]);
        assert(bytes[4 * i + 2] == le_bytes(words[i])[2]);
        assert(bytes[4 * i + 3] == le_bytes(words[i])[3]);
    }
    assert(bytes_words(bytes) =~= words);
}

/// Encoding the words of a byte sequence of whole words recovers the bytes.
pub proof fn lemma_bytes_round_trip(bytes: Seq<u8>)
    requires
        bytes.len() % 4 == 0,
    ensures
        words_bytes(bytes_words(bytes)) == bytes,
{
    let words = bytes_words(bytes);
    assert forall|i: int| 0 <= i < bytes.len() implies words_bytes(words)[i] == bytes[i] by {
        let w = i / 4;
        lemma_bytes_word_round_trip(
            bytes[4 * w],
            bytes[4 * w + 1],
            bytes[4 * w + 2],
            bytes[4 * w + 3],
        );
        assert(le_bytes(words[w]) == seq![
            bytes[4 * w],
            bytes[4 * w + 1],
            bytes[4 * w + 2],
            bytes[4 * w + 3],
        ]);
    }
    assert(words_bytes(words) =~= bytes);
}

/// Appends the four bytes of `word`.
fn push_word(bytes: &mut Vec<u8>, word: u32)
    ensures
        final(bytes)@ == old(bytes)@ + le_bytes(word),
{
    bytes.push((word & 0xff) as u8);
    bytes.push(((word >> 8) & 0xff) as u8);
    bytes.push(((word >> 16) & 0xff) as u8);
    bytes.push(((word >> 24) & 0xff) as u8);
    assert(bytes@ =~= old(bytes)@ + le_bytes(word));
}

/// The word that four bytes spell, least significant first.
fn join_word(b0: u8, b1: u8, b2: u8, b3: u8) -> (word: u32)
    ensures
        word == le_word(b0, b1, b2, b3),
{
    (b0 as u32) | ((b1 as u32) << 8) | ((b2 as u32) << 16) | ((b3 as u32) << 24)
}

/// Lays out a sequence of scalars as buffer contents.
pub fn encode_words(words: &Vec<u32>) -> (bytes: Vec<u8>)
    ensures
        bytes@ == words_bytes(words@),
        bytes.len() == 4 * words.len(),
{
    let mut bytes: Vec<u8> = Vec::new();
    let mut i: usize = 0;
    while i < words.len()
        invariant
            i <= words.len(),
            bytes@ == words_bytes(words@.take(i as int)),
        decreases words.len() - i,
    {
        push_word(&mut bytes, words[i]);
        assert(bytes@ =~= words_bytes(words@.take(i + 1)));
        i += 1;
    }
    assert(words@.take(i as int) =~= words@);
    bytes
}

/// Reads buffer contents back as scalars. `None` unless the bytes are whole
/// words.
pub fn decode_words(bytes: &[u8]) -> (words: Option<Vec<u32>>)
    ensures
        words is Some <==> bytes@.len() % 4 == 0,
        words matches Some(w) ==> w@ == bytes_words(bytes@),
{
    if bytes.len() % 4 != 0 {
        return None;
    }
    let count = bytes.len() / 4;
    let mut words: Vec<u32> = Vec::new();
    let mut i: usize = 0;
    while i < count
        invariant
            i <= count,
            4 * count == bytes@.len(),
            bytes@.len() <= usize::MAX,
            words.len() == i,
            forall|j: int| 0 <= j < i ==> words[j] == bytes_words(bytes@)[j],
        decreases count - i,
    {
        let word = join_word(bytes[4 * i], bytes[4 * i + 1], bytes[4 * i + 2], bytes[4 * i + 3]);
        words.push(word);
        i += 1;
    }
    assert(words@ =~= bytes_words(bytes@));
    Some(words)
}

/// Lays out 16-bit indices as buffer contents.
pub fn encode_indices(indices: &Vec<u16>) -> (bytes: Vec<u8>)
    ensures
        bytes@ == indices_bytes(indices@),
        bytes.len() == 2 * indices.len(),
{
    let mut bytes: Vec<u8> = Vec::new();
    let mut i: usize = 0;
    while i < indices.len()
        invariant
            i <= indices.len(),
            bytes@ == indices_bytes(indices@.take(i as int)),
        decreases indices.len() - i,
    {
        let index = indices[i];
        bytes.push((index & 0xff) as u8);
        bytes.push((index >> 8) as u8);
        assert(bytes@ =~= indices_bytes(indices@.take(i + 1)));
        i += 1;
    }
    assert(indices@.take(i as int) =~= indices@);
    bytes
}

impl VertexFormat {
    /// Bytes one attribute of this format occupies.
    pub open spec fn byte_size(self) -> nat {
        match self {
            VertexFormat::Float32 => 4,
            VertexFormat::Float32x2 => 8,
            VertexFormat::Float32x4 => 16,
        }
    }

    /// Bytes one attribute of this format occupies.
    pub fn size(&self) -> (bytes: u64)
        ensures
            bytes == self.byte_size(),
    {
        match self {
            VertexFormat::Float32 => 4,
            VertexFormat::Float32x2 => 8,
            VertexFormat::Float32x4 => 16,
        }
    }
}

/// Offset of entry `i` when the entries are packed without gaps: the sizes of
/// all entries before it, added up. For `i == entries.len()` this is the size
/// of one whole record.
pub open spec fn packed_offset(entries: Seq<(u32, VertexFormat)>, i: int) -> nat
    decreases i,
{
    if i <= 0 {
        0
    } else {
        packed_offset(entries, i - 1) + entries[i - 1].1.byte_size()
    }
}

/// The attributes of a record whose fields are packed without gaps, given
/// each field's shader location and format.
pub open spec fn packed(entries: Seq<(u32, VertexFormat)>) -> Seq<VertexAttribute> {
    Seq::new(
        entries.len(),
        |i: int|
            VertexAttribute {
                format: entries[i].1,
                offset: packed_offset(entries, i) as u64,
                shader_location: entries[i].0,
            },
    )
}

/// No packed offset exceeds sixteen bytes per preceding entry.
pub proof fn lemma_packed_offset_bound(entries: Seq<(u32, VertexFormat)>, i: int)
    requires
        0 <= i <= entries.len(),
    ensures
        packed_offset(entries, i) <= 16 * i,
    decreases i,
{
    if i > 0 {
        lemma_packed_offset_bound(entries, i - 1);
    }
}

/// Describes a buffer of records whose fields follow one another without
/// gaps: each attribute starts where the one before it ends, and the stride
/// is the end of the last.
pub fn packed_layout(step_mode: VertexStepMode, entries: &Vec<(u32, VertexFormat)>) -> (layout:
    VertexBufferLayout)
    requires
        16 * entries.len() <= u64::MAX,
    ensures
        layout.step_mode == step_mode,
        layout.attributes@ == packed(entries@),
        layout.array_stride == packed_offset(entries@, entries.len() as int),
{
    let mut attributes: Vec<VertexAttribute> = Vec::new();
    let mut offset: u64 = 0;
    let mut i: usize = 0;
    while i < entries.len()
        invariant
            i <= entries.len(),
            16 * entries.len() <= u64::MAX,
            offset == packed_offset(entries@, i as int),
            attributes.len() == i,
            forall|j: int| 0 <= j < i ==> attributes[j] == packed(entries@)[j],
        decreases entries.len() - i,
    {
        let (shader_location, format) = entries[i];
        attributes.push(VertexAttribute { format, offset, shader_location });
        proof {
            lemma_packed_offset_bound(entries@, i as int);
        }
        offset = offset + format.size();
        i += 1;
    }
    assert(attributes@ =~= packed(entries@));
    VertexBufferLayout { array_stride: offset, step_mode, attributes }
}

/// The one attribute of a buffer of positions: both coordinates at offset 0,
/// for shader location 0.
pub open spec fn position_attributes() -> Seq<VertexAttribute> {
    seq![VertexAttribute { format: VertexFormat::Float32x2, offset: 0, shader_location: 0 }]
}

/// The attributes of a buffer of widget records: position at offset 0, size
/// at 8, colour at 16 and corner radius at 32, for shader locations 1 to 4.
pub open spec fn instance_attributes() -> Seq<VertexAttribute> {
    seq![
        VertexAttribute { format: VertexFormat::Float32x2, offset: 0, shader_location: 1 },
        VertexAttribute { format: VertexFormat::Float32x2, offset: 8, shader_location: 2 },
        VertexAttribute { format: VertexFormat::Float32x4, offset: 16, shader_location: 3 },
        VertexAttribute { format: VertexFormat::Float32, offset: 32, shader_location: 4 },
    ]
}

impl Position {
    /// The scalars of the record, in layout order.
    pub open spec fn words(self) -> Seq<u32> {
        seq![self.0, self.1]
    }

    /// The layout of a buffer of positions, one per vertex, feeding shader
    /// location 0.
    pub fn descriptor() -> (layout: VertexBufferLayout)
        ensures
            layout.array_stride == POSITION_STRIDE,
            layout.step_mode == VertexStepMode::Vertex,
            layout.attributes@ == position_attributes(),
    {
        let entries: Vec<(u32, VertexFormat)> = vec![(0u32, VertexFormat::Float32x2)];
        let layout = packed_layout(VertexStepMode::Vertex, &entries);
        proof {
            reveal_with_fuel(packed_offset, 2);
            assert(layout.attributes@ =~= position_attributes());
        }
        layout
    }
}

impl Size {
    /// The scalars of the record, in layout order.
    pub open spec fn words(self) -> Seq<u32> {
        seq![self.0, self.1]
    }
}

impl Color {
    /// The scalars of the record, in layout order.
    pub open spec fn words(self) -> Seq<u32> {
        seq![self.0, self.1, self.2, self.3]
    }
}

impl Globals {
    /// The scalars of the record, in layout order.
    pub open spec fn words(self) -> Seq<u32> {
        self.resolution.words()
    }

    /// The contents of the uniform buffer that holds this record.
    pub open spec fn bytes(self) -> Seq<u8> {
        words_bytes(self.words())
    }

    /// The uniform for a surface of `width` by `height` pixels.
    pub open spec fn of_size(width: u32, height: u32) -> Globals {
        Globals { resolution: Size(f32_bits(width as nat) as u32, f32_bits(height as nat) as u32) }
    }

    /// The uniform for a surface of `width` by `height` pixels.
    pub fn for_size(width: u32, height: u32) -> (globals: Globals)
        ensures
            globals == Globals::of_size(width, height),
    {
        Globals { resolution: Size(f32_bits_of(width), f32_bits_of(height)) }
    }

    /// The contents of the uniform buffer that holds this record.
    pub fn to_bytes(&self) -> (bytes: Vec<u8>)
        ensures
            bytes@ == self.bytes(),
            bytes.len() == GLOBALS_SIZE,
    {
        let words: Vec<u32> = vec![self.resolution.0, self.resolution.1];
        assert(words@ =~= self.words());
        encode_words(&words)
    }
}

impl WidgetInstance {
    /// A widget at `(x, y)` of the given extent, colour and corner radius.
    pub fn new(x: u32, y: u32, width: u32, height: u32, color: Color, radius: u32) -> (instance:
        WidgetInstance)
        ensures
            instance == (WidgetInstance {
                position: Position(x, y),
                size: Size(width, height),
                color,
                radius,
            }),
    {
        WidgetInstance { position: Position(x, y), size: Size(width, height), color, radius }
    }

    /// The scalars of the record, in layout order.
    pub open spec fn words(self) -> Seq<u32> {
        seq![
            self.position.0,
            self.position.1,
            self.size.0,
            self.size.1,
            self.color.0,
            self.color.1,
            self.color.2,
            self.color.3,
            self.radius,
        ]
    }

    /// The record whose scalars, in layout order, are the first nine of
    /// `words`.
    pub open spec fn of_words(words: Seq<u32>) -> WidgetInstance {
        WidgetInstance {
            position: Position(words[0], words[1]),
            size: Size(words[2], words[3]),
            color: Color(words[4], words[5], words[6], words[7]),
            radius: words[8],
        }
    }

    /// The record as it stands in an instance buffer.
    pub open spec fn bytes(self) -> Seq<u8> {
        words_bytes(self.words())
    }

    /// The layout of a buffer of widget records, one per instance, feeding
    /// shader locations 1 to 4 with position, size, colour and radius.
    pub fn descriptor() -> (layout: VertexBufferLayout)
        ensures
            layout.array_stride == INSTANCE_STRIDE,
            layout.step_mode == VertexStepMode::Instance,
            layout.attributes@ == instance_attributes(),
    {
        let entries: Vec<(u32, VertexFormat)> = vec![
            (1u32, VertexFormat::Float32x2),
            (2u32, VertexFormat::Float32x2),
            (3u32, VertexFormat::Float32x4),
            (4u32, VertexFormat::Float32),
        ];
        let layout = packed_layout(VertexStepMode::Instance, &entries);
        proof {
            reveal_with_fuel(packed_offset, 5);
            assert(layout.attributes@ =~= instance_attributes());
        }
        layout
    }

    /// The scalars of the record, in layout order.
    pub fn to_words(&self) -> (words: Vec<u32>)
        ensures
            words@ == self.words(),
    {
        let words: Vec<u32> = vec![
            self.position.0,
            self.position.1,
            self.size.0,
            self.size.1,
            self.color.0,
            self.color.1,
            self.color.2,
            self.color.3,
            self.radius,
        ];
        assert(words@ =~= self.words());
        words
    }

    /// The record as it stands in an instance buffer.
    pub fn to_bytes(&self) -> (bytes: Vec<u8>)
        ensures
            bytes@ == self.bytes(),
            bytes.len() == INSTANCE_STRIDE,
    {
        let words = self.to_words();
        encode_words(&words)
    }

    /// Reads one record back from buffer contents. `None` unless `bytes` is
    /// exactly one record long.
    pub fn from_bytes(bytes: &[u8]) -> (instance: Option<WidgetInstance>)
        ensures
            instance is Some <==> bytes@.len() == INSTANCE_STRIDE,
            instance matches Some(w) ==> w == WidgetInstance::of_words(bytes_words(bytes@)),
    {
        if bytes.len() != 36 {
            return None;
        }
        match decode_words(bytes) {
            Some(words) => Some(
                WidgetInstance {
                    position: Position(words[0], words[1]),
                    size: Size(words[2], words[3]),
                    color: Color(words[4], words[5], words[6], words[7]),
                    radius: words[8],
                },
            ),
            None => None,
        }
    }
}

/// A widget record written to a buffer and read back is the same record.
pub proof fn lemma_instance_round_trip(instance: WidgetInstance)
    ensures
        instance.bytes().len() == INSTANCE_STRIDE,
        WidgetInstance::of_words(bytes_words(instance.bytes())) == instance,
{
    lemma_words_round_trip(instance.words());
}

/// Thirty-six bytes read as a widget record and written again are the same
/// bytes.
pub proof fn lemma_instance_bytes_round_trip(bytes: Seq<u8>)
    requires
        bytes.len() == INSTANCE_STRIDE,
    ensures
        WidgetInstance::of_words(bytes_words(bytes)).bytes() == bytes,
{
    let words = bytes_words(bytes);
    assert(words.len() == 9);
    assert(WidgetInstance::of_words(words).words() =~= words);
    assert(words_bytes(words) == bytes) by {
        lemma_bytes_round_trip(bytes);
    }
}

/// Each field of a widget record stands at the offset its attribute names:
/// position at 0, size at 8, colour at 16 and radius at 32, the record ending
/// at 36.
pub proof fn lemma_instance_field_offsets(instance: WidgetInstance)
    ensures
        instance.bytes().len() == INSTANCE_STRIDE,
        instance.bytes().subrange(0, 8) == words_bytes(instance.position.words()),
        instance.bytes().subrange(8, 16) == words_bytes(instance.size.words()),
        instance.bytes().subrange(16, 32) == words_bytes(instance.color.words()),
        instance.bytes().subrange(32, 36) == le_bytes(instance.radius),
{
    let bytes = instance.bytes();
    assert(bytes.subrange(0, 8) =~= words_bytes(instance.position.words()));
    assert(bytes.subrange(8, 16) =~= words_bytes(instance.size.words()));
    assert(bytes.subrange(16, 32) =~= words_bytes(instance.color.words()));
    assert(bytes.subrange(32, 36) =~= le_bytes(instance.radius));
}

/// In the contents of an instance buffer, record `k` occupies the
/// thirty-six bytes from `36 * k` on.
pub proof fn lemma_instance_stride(instances: Seq<WidgetInstance>, k: int)
    requires
        0 <= k < instances.len(),
    ensures
        words_bytes(instances_words(instances)).len() == INSTANCE_STRIDE * instances.len(),
        words_bytes(instances_words(instances)).subrange(36 * k, 36 * k + 36)
            == instances[k].bytes(),
{
    let all = words_bytes(instances_words(instances));
    let one = instances[k].bytes();
    assert forall|i: int| 0 <= i < 36 implies all[36 * k + i] == one[i] by {
        let w = (36 * k + i) / 4;
        assert(w == 9 * k + i / 4);
        assert((36 * k + i) % 4 == i % 4);
        assert(w / 9 == k);
        assert(w % 9 == i / 4);
    }
    assert(all.subrange(36 * k, 36 * k + 36) =~= one);
}

/// The contents of an instance buffer that holds `instances` in order.
pub fn encode_instances(instances: &Vec<WidgetInstance>) -> (bytes: Vec<u8>)
    requires
        INSTANCE_STRIDE * instances.len() <= usize::MAX,
    ensures
        bytes@ == words_bytes(instances_words(instances@)),
        bytes.len() == INSTANCE_STRIDE * instances.len(),
{
    let mut words: Vec<u32> = Vec::new();
    let mut i: usize = 0;
    while i < instances.len()
        invariant
            i <= instances.len(),
            words@ == instances_words(instances@.take(i as int)),
        decreases instances.len() - i,
    {
        let instance = instances[i];
        words.push(instance.position.0);
        words.push(instance.position.1);
        words.push(instance.size.0);
        words.push(instance.size.1);
        words.push(instance.color.0);
        words.push(instance.color.1);
        words.push(instance.color.2);
        words.push(instance.color.3);
        words.push(instance.radius);
        assert(words@ =~= instances_words(instances@.take(i + 1)));
        i += 1;
    }
    assert(instances@.take(i as int) =~= instances@);
    encode_words(&words)
}

/// The corners of the unit quad every widget is drawn with: bottom left,
/// bottom right, top left, top right, each half a unit from the centre.
pub open spec fn quad_corners() -> Seq<Position> {
    seq![
        Position(NEG_HALF, NEG_HALF),
        Position(HALF, NEG_HALF),
        Position(NEG_HALF, HALF),
        Position(HALF, HALF),
    ]
}

/// The indices that draw the unit quad as two triangles.
pub open spec fn quad_triangles() -> Seq<u16> {
    seq![0u16, 1u16, 2u16, 2u16, 1u16, 3u16]
}

/// The corners of the unit quad.
pub fn quad_vertices() -> (vertices: Vec<Position>)
    ensures
        vertices@ == quad_corners(),
{
    let vertices: Vec<Position> = vec![
        Position(NEG_HALF, NEG_HALF),
        Position(HALF, NEG_HALF),
        Position(NEG_HALF, HALF),
        Position(HALF, HALF),
    ];
    assert(vertices@ =~= quad_corners());
    vertices
}

/// The indices that draw the unit quad as two triangles.
pub fn quad_indices() -> (indices: Vec<u16>)
    ensures
        indices@ == quad_triangles(),
{
    let indices: Vec<u16> = vec![0u16, 1u16, 2u16, 2u16, 1u16, 3u16];
    assert(indices@ =~= quad_triangles());
    indices
}

/// The contents of a vertex buffer that holds `positions` in order.
pub fn encode_positions(positions: &Vec<Position>) -> (bytes: Vec<u8>)
    requires
        POSITION_STRIDE * positions.len() <= usize::MAX,
    ensures
        bytes@ == words_bytes(positions_words(positions@)),
        bytes.len() == POSITION_STRIDE * positions.len(),
{
    let mut words: Vec<u32> = Vec::new();
    let mut i: usize = 0;
    while i < positions.len()
        invariant
            i <= positions.len(),
            words@ == positions_words(positions@.take(i as int)),
        decreases positions.len() - i,
    {
        let position = positions[i];
        words.push(position.0);
        words.push(position.1);
        assert(words@ =~= positions_words(positions@.take(i + 1)));
        i += 1;
    }
    assert(positions@.take(i as int) =~= positions@);
    encode_words(&words)
}

} // verus!
