//! Vertex schemas, the layout of their attributes in a buffer, and packed
//! vertex records.
//!
//! A schema is an ordered list of attributes, each a name and a count of
//! `f32` components. A count of 1 to 4 is a scalar or a vector and takes
//! one attribute slot of the device. A count of 16 is a 4x4 matrix and
//! takes four consecutive slots of four components each. Nothing else can
//! be laid out.

use vstd::prelude::*;
use crate::error::SchemaError;

verus! {

/// One declared attribute of a vertex or an instance: the name by which
/// the program knows it, and its size in `f32` components, not bytes.
#[derive(Clone, Debug, PartialEq, Eq)]
pub struct Attribute {
    pub name: String,
    pub size: i32,
}

/// The most attributes a schema may have: with more of them the stride in
/// bytes might not be an `i32`, which is how the device takes it.
pub const MAX_ATTRIBUTES: usize = 0x1FF_FFFF;

/// Size in components of a matrix attribute.
pub const MATRIX_SIZE: i32 = 16;

/// Whether an attribute of `size` components can be laid out.
pub open spec fn size_supported(size: i32) -> bool {
    1 <= size <= 4 || size == MATRIX_SIZE
}

/// The sum of the sizes of `attributes`.
pub open spec fn sum_sizes(attributes: Seq<Attribute>) -> int
    decreases attributes.len(),
{
    if attributes.len() == 0 {
        0
    } else {
        sum_sizes(attributes.drop_last()) + attributes.last().size
    }
}

/// The number of attributes in `attributes` that are scalars or vectors:
/// those of at most four components.
pub open spec fn count_vectors(attributes: Seq<Attribute>) -> int
    decreases attributes.len(),
{
    if attributes.len() == 0 {
        0
    } else {
        count_vectors(attributes.drop_last()) + if attributes.last().size <= 4 {
            1int
        } else {
            0int
        }
    }
}

/// The number of attributes in `attributes` that are matrices.
pub open spec fn count_matrices(attributes: Seq<Attribute>) -> int
    decreases attributes.len(),
{
    if attributes.len() == 0 {
        0
    } else {
        count_matrices(attributes.drop_last()) + if attributes.last().size == MATRIX_SIZE {
            1int
        } else {
            0int
        }
    }
}

/// Whether every attribute of `attributes` can be laid out.
pub open spec fn all_supported(attributes: Seq<Attribute>) -> bool {
    forall|i: int| 0 <= i < attributes.len() ==> size_supported(#[trigger] attributes[i].size)
}

/// Adding one attribute to a list adds its size to the sum.
pub proof fn lemma_sums_step(attributes: Seq<Attribute>, i: int)
    requires
        0 <= i < attributes.len(),
    ensures
        sum_sizes(attributes.take(i + 1)) == sum_sizes(attributes.take(i)) + attributes[i].size,
{
    assert(attributes.take(i + 1).drop_last() =~= attributes.take(i));
    assert(attributes.take(i + 1).last() == attributes[i]);
}

/// The sizes of supported attributes add up to one at least and sixteen at
/// most for each of them.
pub proof fn lemma_sum_bounds(attributes: Seq<Attribute>)
    requires
        all_supported(attributes),
    ensures
        attributes.len() <= sum_sizes(attributes) <= 16 * attributes.len(),
    decreases attributes.len(),
{
    if attributes.len() > 0 {
        let front = attributes.drop_last();
        assert forall|i: int| 0 <= i < front.len() implies size_supported(
            #[trigger] front[i].size,
        ) by {
            assert(front[i] == attributes[i]);
        }
        lemma_sum_bounds(front);
        assert(size_supported(attributes[attributes.len() - 1].size));
    }
}

/// A vertex or instance schema that can be laid out: every attribute has a
/// supported size, and the stride is known.
#[derive(Debug)]
pub struct Attributes {
    list: Vec<Attribute>,
    stride: i32,
}

impl View for Attributes {
    type V = Seq<Attribute>;

    closed spec fn view(&self) -> Seq<Attribute> {
        self.list@
    }
}

impl Attributes {
    /// The number of `f32` components of one record: the sum of the sizes.
    pub closed spec fn spec_stride(&self) -> int {
        self.stride as int
    }

    /// Whether the schema is what `new` makes.
    pub open spec fn wf(&self) -> bool {
        &&& self@.len() <= MAX_ATTRIBUTES
        &&& all_supported(self@)
        &&& self.spec_stride() == sum_sizes(self@)
    }

    /// Whether `index` is the first attribute of `attributes` whose size
    /// cannot be laid out.
    pub open spec fn first_unsupported(attributes: Seq<Attribute>, index: int) -> bool {
        &&& 0 <= index < attributes.len()
        &&& !size_supported(attributes[index].size)
        &&& all_supported(attributes.take(index))
    }

    /// Declares a schema. A list with an attribute of any size but 1, 2,
    /// 3, 4 or 16 is refused, and the first such attribute is told.
    pub fn new(list: Vec<Attribute>) -> (made: Result<Attributes, SchemaError>)
        requires
            list@.len() <= MAX_ATTRIBUTES,
        ensures
            all_supported(list@) <==> made is Ok,
            made matches Ok(attributes) ==> attributes.wf() && attributes@ == list@,
            made matches Err(SchemaError::UnsupportedAttributeSize { index, size })
                ==> Self::first_unsupported(list@, index as int) && size == list@[index as int].size,
    {
        let mut stride: i32 = 0;
        let mut i: usize = 0;
        while i < list.len()
            invariant
                0 <= i <= list@.len() <= MAX_ATTRIBUTES,
                all_supported(list@.take(i as int)),
                stride == sum_sizes(list@.take(i as int)),
            decreases list@.len() - i,
        {
            let size = list[i].size;
            if !(1 <= size && size <= 4 || size == MATRIX_SIZE) {
                assert(!all_supported(list@)) by {
                    assert(!size_supported(list@[i as int].size));
                }
                return Err(SchemaError::UnsupportedAttributeSize { index: i, size });
            }
            proof {
                lemma_sums_step(list@, i as int);
                lemma_sum_bounds(list@.take(i as int));
                assert forall|k: int| 0 <= k < i + 1 implies size_supported(
                    #[trigger] list@.take(i + 1)[k].size,
                ) by {
                    if k < i {
                        assert(list@.take(i + 1)[k] == list@.take(i as int)[k]);
                    }
                }
            }
            stride = stride + size;
            i += 1;
        }
        assert(list@.take(i as int) =~= list@);
        Ok(Attributes { list, stride })
    }

    /// The number of `f32` components of one record.
    pub fn stride(&self) -> (stride: i32)
        ensures
            stride == self.spec_stride(),
    {
        self.stride
    }

    /// The number of attributes.
    pub fn len(&self) -> (len: usize)
        ensures
            len == self@.len(),
    {
        self.list.len()
    }

    /// The attribute at `index`.
    pub fn get(&self, index: usize) -> (attribute: &Attribute)
        requires
            index < self@.len(),
        ensures
            *attribute == self@[index as int],
    {
        &self.list[index]
    }

    /// The stride of a schema is one component at least and sixteen at
    /// most for each attribute, so four times the stride is an `i32`.
    pub proof fn lemma_stride_bounds(&self)
        requires
            self.wf(),
        ensures
            self@.len() <= self.spec_stride() <= 16 * self@.len(),
            0 <= 4 * self.spec_stride() <= i32::MAX,
    {
        lemma_sum_bounds(self@);
    }
}

/// One device slot of a laid-out schema.
#[derive(Clone, Copy, Debug, PartialEq, Eq, Structural)]
pub struct AttributeSlot {
    /// The attribute location on the device.
    pub location: u32,
    /// The number of components that the slot reads: 1 to 4.
    pub size: i32,
    /// Where the slot starts in a record, in bytes.
    pub offset: i32,
    /// Whether the slot advances once for each instance rather than once
    /// for each vertex.
    pub per_instance: bool,
}

/// How the records of a schema lie in a buffer.
#[derive(Clone, Debug, PartialEq, Eq)]
pub struct VertexLayout {
    /// The distance between two records, in bytes.
    pub stride: i32,
    /// The device slots of all attributes, in the order of the schema.
    pub slots: Vec<AttributeSlot>,
}

impl VertexLayout {
    /// The slots of one attribute of `size` components that the program
    /// has at `location` and that starts `offset` components into the
    /// record. A matrix takes four slots, one for each run of four
    /// components, at consecutive locations; anything else takes one.
    pub open spec fn attribute_slots(size: i32, location: u32, offset: int, per_instance: bool) -> Seq<
        AttributeSlot,
    > {
        if size == MATRIX_SIZE {
            Seq::new(
                4,
                |row: int|
                    AttributeSlot {
                        location: (location + row) as u32,
                        size: 4,
                        offset: (4 * (offset + 4 * row)) as i32,
                        per_instance,
                    },
            )
        } else {
            seq![AttributeSlot { location, size, offset: (4 * offset) as i32, per_instance }]
        }
    }

    /// The slots of all of `attributes`, which the program has at
    /// `locations`, one after the other.
    pub open spec fn slots_of(
        attributes: Seq<Attribute>,
        locations: Seq<u32>,
        per_instance: bool,
    ) -> Seq<AttributeSlot>
        decreases attributes.len(),
    {
        if attributes.len() == 0 {
            Seq::empty()
        } else {
            Self::slots_of(attributes.drop_last(), locations.drop_last(), per_instance)
                + Self::attribute_slots(
                attributes.last().size,
                locations[attributes.len() - 1],
                sum_sizes(attributes.drop_last()),
                per_instance,
            )
        }
    }

    /// Whether `locations` holds one location for each of `attributes`,
    /// with room behind that of a matrix for its three further rows.
    pub open spec fn locations_fit(attributes: Seq<Attribute>, locations: Seq<u32>) -> bool {
        &&& locations.len() == attributes.len()
        &&& forall|i: int|
            0 <= i < attributes.len() && (#[trigger] attributes[i]).size == MATRIX_SIZE
                ==> locations[i] + 3 <= u32::MAX
    }

    /// Tells whether `locations` holds one location for each of
    /// `attributes`, with room behind that of a matrix for its three
    /// further rows.
    pub fn fits(attributes: &Attributes, locations: &[u32]) -> (fit: bool)
        ensures
            fit == Self::locations_fit(attributes@, locations@),
    {
        if locations.len() != attributes.len() {
            return false;
        }
        let mut i: usize = 0;
        while i < locations.len()
            invariant
                0 <= i <= locations@.len(),
                locations@.len() == attributes@.len(),
                forall|k: int|
                    0 <= k < i && (#[trigger] attributes@[k]).size == MATRIX_SIZE ==> locations@[k] + 3
                        <= u32::MAX,
            decreases locations@.len() - i,
        {
            if attributes.get(i).size == MATRIX_SIZE && locations[i] > u32::MAX - 3 {
                assert(attributes@[i as int].size == MATRIX_SIZE && locations@[i as int] + 3
                    > u32::MAX);
                return false;
            }
            i += 1;
        }
        true
    }

    /// Laying out one attribute more appends its slots.
    pub proof fn lemma_slots_step(
        attributes: Seq<Attribute>,
        locations: Seq<u32>,
        per_instance: bool,
        i: int,
    )
        requires
            0 <= i < attributes.len(),
            locations.len() == attributes.len(),
        ensures
            Self::slots_of(attributes.take(i + 1), locations.take(i + 1), per_instance)
                == Self::slots_of(attributes.take(i), locations.take(i), per_instance)
                + Self::attribute_slots(
                attributes[i].size,
                locations[i],
                sum_sizes(attributes.take(i)),
                per_instance,
            ),
    {
        assert(attributes.take(i + 1).drop_last() =~= attributes.take(i));
        assert(locations.take(i + 1).drop_last() =~= locations.take(i));
        assert(attributes.take(i + 1).last() == attributes[i]);
        assert(locations.take(i + 1)[attributes.take(i + 1).len() - 1] == locations[i]);
    }

    /// A schema of supported sizes takes one slot for each scalar or
    /// vector and four for each matrix.
    pub proof fn lemma_slot_count(
        attributes: Seq<Attribute>,
        locations: Seq<u32>,
        per_instance: bool,
    )
        requires
            all_supported(attributes),
        ensures
            Self::slots_of(attributes, locations, per_instance).len() == count_vectors(attributes) + 4
                * count_matrices(attributes),
        decreases attributes.len(),
    {
        if attributes.len() > 0 {
            let front = attributes.drop_last();
            assert forall|i: int| 0 <= i < front.len() implies size_supported(
                #[trigger] front[i].size,
            ) by {
                assert(front[i] == attributes[i]);
            }
            Self::lemma_slot_count(front, locations.drop_last(), per_instance);
            assert(size_supported(attributes[attributes.len() - 1].size));
        }
    }

    /// For every schema of supported sizes, the stride of its layout is
    /// four bytes for each component of each attribute, and the layout
    /// has one slot for each scalar or vector and four for each matrix.
    pub proof fn lemma_layout_size(attributes: &Attributes, locations: Seq<u32>, per_instance: bool)
        requires
            attributes.wf(),
        ensures
            4 * attributes.spec_stride() == 4 * sum_sizes(attributes@),
            Self::slots_of(attributes@, locations, per_instance).len() == count_vectors(
                attributes@,
            ) + 4 * count_matrices(attributes@),
    {
        Self::lemma_slot_count(attributes@, locations, per_instance);
    }

    /// Lays out `attributes` for a program that has them at `locations`.
    /// With `per_instance` the slots advance once for each instance.
    pub fn new(attributes: &Attributes, locations: &[u32], per_instance: bool) -> (layout: Self)
        requires
            attributes.wf(),
            Self::locations_fit(attributes@, locations@),
        ensures
            layout.stride == 4 * attributes.spec_stride(),
            layout.slots@ == Self::slots_of(attributes@, locations@, per_instance),
    {
        let count = attributes.len();
        let mut slots: Vec<AttributeSlot> = Vec::new();
        let mut offset: i32 = 0;
        let mut i: usize = 0;
        proof {
            attributes.lemma_stride_bounds();
        }
        while i < count
            invariant
                attributes.wf(),
                Self::locations_fit(attributes@, locations@),
                count == attributes@.len(),
                0 <= i <= count,
                offset == sum_sizes(attributes@.take(i as int)),
                slots@ == Self::slots_of(
                    attributes@.take(i as int),
                    locations@.take(i as int),
                    per_instance,
                ),
            decreases count - i,
        {
            let size = attributes.get(i).size;
            let location = locations[i];
            proof {
                lemma_sums_step(attributes@, i as int);
                Self::lemma_slots_step(attributes@, locations@, per_instance, i as int);
                assert(size_supported(attributes@[i as int].size));
                assert forall|k: int| 0 <= k < i implies size_supported(
                    #[trigger] attributes@.take(i as int)[k].size,
                ) by {
                    assert(attributes@.take(i as int)[k] == attributes@[k]);
                }
                lemma_sum_bounds(attributes@.take(i as int));
            }
            let ghost before = slots@;
            if size == MATRIX_SIZE {
                // Matrices take up four slots, so each row is laid out by itself.
                slots.push(AttributeSlot { location, size: 4, offset: 4 * offset, per_instance });
                slots.push(
                    AttributeSlot {
                        location: location + 1,
                        size: 4,
                        offset: 4 * (offset + 4),
                        per_instance,
                    },
                );
                slots.push(
                    AttributeSlot {
                        location: location + 2,
                        size: 4,
                        offset: 4 * (offset + 8),
                        per_instance,
                    },
                );
                slots.push(
                    AttributeSlot {
                        location: location + 3,
                        size: 4,
                        offset: 4 * (offset + 12),
                        per_instance,
                    },
                );
            } else {
                slots.push(AttributeSlot { location, size, offset: 4 * offset, per_instance });
            }
            assert(slots@ =~= before + Self::attribute_slots(
                size,
                location,
                offset as int,
                per_instance,
            ));
            offset = offset + size;
            i += 1;
        }
        assert(attributes@.take(i as int) =~= attributes@);
        assert(locations@.take(i as int) =~= locations@);
        VertexLayout { stride: 4 * attributes.stride(), slots }
    }
}

/// Packed records of one schema: the components of all records one after
/// the other, each an `f32` bit pattern.
#[derive(Debug)]
pub struct VertexData {
    attributes: Attributes,
    data: Vec<u32>,
    count: usize,
}

impl VertexData {
    /// The schema of the records.
    pub closed spec fn attributes(&self) -> Attributes {
        self.attributes
    }

    /// The components of all records.
    pub closed spec fn words(&self) -> Seq<u32> {
        self.data@
    }

    /// The number of records.
    pub closed spec fn spec_len(&self) -> nat {
        self.count as nat
    }

    /// The number of components of one record.
    pub open spec fn spec_stride(&self) -> int {
        self.attributes().spec_stride()
    }

    /// Whether the data are whole records of the schema: their length is
    /// the number of records times the stride.
    pub open spec fn wf(&self) -> bool {
        &&& self.attributes().wf()
        &&& self.words().len() == self.spec_len() * self.spec_stride()
    }

    /// No records of the given schema.
    pub fn new(attributes: Attributes) -> (made: Self)
        requires
            attributes.wf(),
        ensures
            made.wf(),
            made.attributes() == attributes,
            made.words() == Seq::<u32>::empty(),
            made.spec_len() == 0,
    {
        VertexData { attributes, data: Vec::new(), count: 0 }
    }

    /// Appends one record, given by its components in the order of the
    /// schema.
    pub fn push(&mut self, record: &[u32])
        requires
            old(self).wf(),
            record@.len() == old(self).spec_stride(),
            old(self).spec_len() < usize::MAX,
        ensures
            final(self).wf(),
            final(self).attributes() == old(self).attributes(),
            final(self).words() == old(self).words() + record@,
            final(self).spec_len() == old(self).spec_len() + 1,
    {
        proof {
            assert((self.spec_len() + 1) * self.spec_stride() == self.spec_len()
                * self.spec_stride() + self.spec_stride()) by (nonlinear_arith);
        }
        let mut i: usize = 0;
        while i < record.len()
            invariant
                0 <= i <= record@.len(),
                self.attributes == old(self).attributes,
                self.count == old(self).count,
                self.data@ == old(self).data@ + record@.take(i as int),
            decreases record@.len() - i,
        {
            self.data.push(record[i]);
            assert(self.data@ =~= old(self).data@ + record@.take(i + 1));
            i += 1;
        }
        assert(record@.take(i as int) =~= record@);
        self.count = self.count + 1;
    }

    /// Appends all records of `other`, which has the same stride.
    pub fn append(&mut self, other: &VertexData)
        requires
            old(self).wf(),
            other.wf(),
            other.spec_stride() == old(self).spec_stride(),
            old(self).spec_len() + other.spec_len() <= usize::MAX,
        ensures
            final(self).wf(),
            final(self).attributes() == old(self).attributes(),
            final(self).words() == old(self).words() + other.words(),
            final(self).spec_len() == old(self).spec_len() + other.spec_len(),
    {
        proof {
            assert((self.spec_len() + other.spec_len()) * self.spec_stride() == self.spec_len()
                * self.spec_stride() + other.spec_len() * self.spec_stride())
                by (nonlinear_arith);
        }
        let mut i: usize = 0;
        while i < other.data.len()
            invariant
                0 <= i <= other.data@.len(),
                self.attributes == old(self).attributes,
                self.count == old(self).count,
                self.data@ == old(self).data@ + other.data@.take(i as int),
            decreases other.data@.len() - i,
        {
            self.data.push(other.data[i]);
            assert(self.data@ =~= old(self).data@ + other.data@.take(i + 1));
            i += 1;
        }
        assert(other.data@.take(i as int) =~= other.data@);
        self.count = self.count + other.count;
    }

    /// Removes all records. The schema stays.
    pub fn clear(&mut self)
        requires
            old(self).wf(),
        ensures
            final(self).wf(),
            final(self).attributes() == old(self).attributes(),
            final(self).words() == Seq::<u32>::empty(),
            final(self).spec_len() == 0,
    {
        self.data.clear();
        self.count = 0;
    }

    /// The number of records.
    pub fn len(&self) -> (len: usize)
        ensures
            len == self.spec_len(),
    {
        self.count
    }

    /// Whether there is no record.
    pub fn is_empty(&self) -> (empty: bool)
        ensures
            empty == (self.spec_len() == 0),
    {
        self.count == 0
    }

    /// The number of components of one record.
    pub fn stride(&self) -> (stride: i32)
        ensures
            stride == self.spec_stride(),
    {
        self.attributes.stride()
    }

    /// The schema of the records.
    pub fn schema(&self) -> (attributes: &Attributes)
        ensures
            *attributes == self.attributes(),
    {
        &self.attributes
    }

    /// The components of all records.
    pub fn data(&self) -> (data: &Vec<u32>)
        ensures
            data@ == self.words(),
    {
        &self.data
    }
}

} // verus!
