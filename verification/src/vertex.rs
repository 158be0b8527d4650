use vstd::prelude::*;

use crate::image::{
    FORMAT_R32G32B32A32_SFLOAT, FORMAT_R32G32B32_SFLOAT, FORMAT_R32G32_SFLOAT, FORMAT_R32_SFLOAT,
    FORMAT_R32_UINT,
};

verus! {

/// One vertex attribute, by shape.
#[derive(Clone, Copy, Debug, PartialEq, Eq, Structural)]
pub enum VertexAttribute {
    Uint,
    Float,
    Vec2,
    Vec3,
    Vec4,
}

/// The size of an attribute in bytes.
pub open spec fn spec_attribute_size(attribute: VertexAttribute) -> u32 {
    match attribute {
        VertexAttribute::Uint | VertexAttribute::Float => 4,
        VertexAttribute::Vec2 => 8,
        VertexAttribute::Vec3 => 12,
        VertexAttribute::Vec4 => 16,
    }
}

/// The pixel format code an attribute is read as.
pub open spec fn spec_attribute_format(attribute: VertexAttribute) -> u32 {
    match attribute {
        VertexAttribute::Uint => FORMAT_R32_UINT,
        VertexAttribute::Float => FORMAT_R32_SFLOAT,
        VertexAttribute::Vec2 => FORMAT_R32G32_SFLOAT,
        VertexAttribute::Vec3 => FORMAT_R32G32B32_SFLOAT,
        VertexAttribute::Vec4 => FORMAT_R32G32B32A32_SFLOAT,
    }
}

impl VertexAttribute {
    /// The size of the attribute in bytes.
    pub fn size(&self) -> (r: u32)
        ensures
            r == spec_attribute_size(*self),
    {
        match self {
            VertexAttribute::Uint | VertexAttribute::Float => 4,
            VertexAttribute::Vec2 => 8,
            VertexAttribute::Vec3 => 12,
            VertexAttribute::Vec4 => 16,
        }
    }

    /// The pixel format code the attribute is read as.
    fn format(&self) -> (r: u32)
        ensures
            r == spec_attribute_format(*self),
    {
        match self {
            VertexAttribute::Uint => FORMAT_R32_UINT,
            VertexAttribute::Float => FORMAT_R32_SFLOAT,
            VertexAttribute::Vec2 => FORMAT_R32G32_SFLOAT,
            VertexAttribute::Vec3 => FORMAT_R32G32B32_SFLOAT,
            VertexAttribute::Vec4 => FORMAT_R32G32B32A32_SFLOAT,
        }
    }
}

/// One attribute of one vertex binding, resolved to the fields the
/// underlying API consumes.
#[derive(Clone, Copy, Debug, PartialEq, Eq, Structural)]
pub struct VertexInputAttributeDescription {
    pub binding: u32,
    pub location: u32,
    pub format: u32,
    pub offset: u32,
}

/// The number of attributes over all bindings.
pub open spec fn spec_total_attributes(attributes: Seq<Vec<VertexAttribute>>) -> int
    decreases attributes.len(),
{
    if attributes.len() == 0 {
        0
    } else {
        spec_total_attributes(attributes.drop_last()) + attributes.last()@.len()
    }
}

/// The shader location of the first attribute of binding `binding`:
/// locations run sequentially across bindings.
pub open spec fn spec_location_base(attributes: Seq<Vec<VertexAttribute>>, binding: int) -> int {
    spec_total_attributes(attributes.take(binding))
}

/// The byte offset of attribute `j` inside its binding: the sizes of the
/// attributes before it.
pub open spec fn spec_offset_of(attributes: Seq<VertexAttribute>, j: int) -> int
    decreases j,
{
    if j <= 0 {
        0
    } else {
        spec_offset_of(attributes, j - 1) + spec_attribute_size(attributes[j - 1])
    }
}

/// Whether the description at the position of attribute `(binding, j)` holds
/// exactly the fields the layout assigns it.
pub open spec fn spec_description_at(
    descriptions: Seq<VertexInputAttributeDescription>,
    attributes: Seq<Vec<VertexAttribute>>,
    binding: int,
    j: int,
) -> bool {
    descriptions[spec_location_base(attributes, binding) + j]
        == (VertexInputAttributeDescription {
        binding: binding as u32,
        location: (spec_location_base(attributes, binding) + j) as u32,
        format: spec_attribute_format(attributes[binding]@[j]),
        offset: spec_offset_of(attributes[binding]@, j) as u32,
    })
}

/// The attribute count of every prefix of the binding list is nonnegative.
pub proof fn lemma_total_nonneg(attributes: Seq<Vec<VertexAttribute>>)
    ensures
        spec_total_attributes(attributes) >= 0,
    decreases attributes.len(),
{
    if attributes.len() > 0 {
        lemma_total_nonneg(attributes.drop_last());
    }
}

/// Extending the prefix by one binding adds that binding's attribute count.
pub proof fn lemma_total_step(attributes: Seq<Vec<VertexAttribute>>, binding: int)
    requires
        0 <= binding < attributes.len(),
    ensures
        spec_total_attributes(attributes.take(binding + 1)) == spec_total_attributes(
            attributes.take(binding),
        ) + attributes[binding]@.len(),
{
    assert(attributes.take(binding + 1).drop_last() =~= attributes.take(binding));
    assert(attributes.take(binding + 1).last() == attributes[binding]);
}

/// A prefix of the binding list never holds more attributes than the whole.
pub proof fn lemma_total_prefix_bound(attributes: Seq<Vec<VertexAttribute>>, binding: int)
    requires
        0 <= binding <= attributes.len(),
    ensures
        spec_total_attributes(attributes.take(binding)) <= spec_total_attributes(attributes),
    decreases attributes.len() - binding,
{
    if binding == attributes.len() {
        assert(attributes.take(binding) =~= attributes);
    } else {
        lemma_total_step(attributes, binding);
        lemma_total_prefix_bound(attributes, binding + 1);
    }
}

/// Offsets inside a binding grow with the attribute index.
pub proof fn lemma_offset_mono(attributes: Seq<VertexAttribute>, j1: int, j2: int)
    requires
        0 <= j1 <= j2,
    ensures
        spec_offset_of(attributes, j1) <= spec_offset_of(attributes, j2),
    decreases j2 - j1,
{
    if j1 < j2 {
        lemma_offset_mono(attributes, j1, j2 - 1);
    }
}

/// Lays the attributes of every binding out with sequential shader locations
/// and per-binding byte offsets: attribute `j` of binding `b` sits at the
/// location counting all attributes of earlier bindings plus `j`, at the
/// byte offset of the sizes before it in its own binding.
pub fn create_vertex_attribute_descriptions(attributes: &Vec<Vec<VertexAttribute>>) -> (r: Vec<
    VertexInputAttributeDescription,
>)
    requires
        attributes@.len() <= u32::MAX,
        spec_total_attributes(attributes@) <= u32::MAX,
        forall|b: int|
            0 <= b < attributes@.len() ==> spec_offset_of(
                #[trigger] attributes@[b]@,
                attributes@[b]@.len() as int,
            ) <= u32::MAX,
    ensures
        r@.len() == spec_total_attributes(attributes@),
        forall|b: int, j: int|
            0 <= b < attributes@.len() && 0 <= j < attributes@[b]@.len()
                ==> #[trigger] spec_description_at(r@, attributes@, b, j),
{
    let mut descriptions: Vec<VertexInputAttributeDescription> = Vec::new();
    let mut location: u32 = 0;
    let mut binding: usize = 0;
    proof {
        assert(attributes@.take(0) =~= Seq::<Vec<VertexAttribute>>::empty());
    }
    while binding < attributes.len()
        invariant
            binding <= attributes@.len(),
            attributes@.len() <= u32::MAX,
            spec_total_attributes(attributes@) <= u32::MAX,
            forall|b: int|
                0 <= b < attributes@.len() ==> spec_offset_of(
                    #[trigger] attributes@[b]@,
                    attributes@[b]@.len() as int,
                ) <= u32::MAX,
            descriptions@.len() == spec_location_base(attributes@, binding as int),
            location == descriptions@.len(),
            forall|b: int, j: int|
                0 <= b < binding && 0 <= j < attributes@[b]@.len()
                    ==> #[trigger] spec_description_at(descriptions@, attributes@, b, j),
        decreases attributes@.len() - binding,
    {
        let binding_attributes = &attributes[binding];
        let mut offset: u32 = 0;
        let mut j: usize = 0;
        proof {
            lemma_total_step(attributes@, binding as int);
            lemma_total_prefix_bound(attributes@, binding as int + 1);
            lemma_total_nonneg(attributes@.take(binding as int));
        }
        while j < binding_attributes.len()
            invariant
                j <= binding_attributes@.len(),
                binding < attributes@.len(),
                attributes@.len() <= u32::MAX,
                binding_attributes@ == attributes@[binding as int]@,
                spec_total_attributes(attributes@) <= u32::MAX,
                spec_location_base(attributes@, binding as int) + binding_attributes@.len()
                    <= spec_total_attributes(attributes@),
                spec_location_base(attributes@, binding as int) >= 0,
                spec_offset_of(binding_attributes@, binding_attributes@.len() as int) <= u32::MAX,
                descriptions@.len() == spec_location_base(attributes@, binding as int) + j,
                location == descriptions@.len(),
                offset == spec_offset_of(binding_attributes@, j as int),
                forall|b: int, jj: int|
                    0 <= b < binding && 0 <= jj < attributes@[b]@.len()
                        ==> #[trigger] spec_description_at(descriptions@, attributes@, b, jj),
                forall|jj: int|
                    0 <= jj < j ==> #[trigger] spec_description_at(
                        descriptions@,
                        attributes@,
                        binding as int,
                        jj,
                    ),
            decreases binding_attributes@.len() - j,
        {
            let attribute = &binding_attributes[j];
            proof {
                lemma_offset_mono(binding_attributes@, j as int + 1, binding_attributes@.len() as int);
                lemma_offset_mono(binding_attributes@, 0, j as int);
            }
            let description = VertexInputAttributeDescription {
                binding: binding as u32,
                location,
                format: attribute.format(),
                offset,
            };
            let ghost base = spec_location_base(attributes@, binding as int);
            let ghost before = descriptions@;
            descriptions.push(description);
            proof {
                assert forall|jj: int| 0 <= jj < j + 1 implies #[trigger] spec_description_at(
                    descriptions@,
                    attributes@,
                    binding as int,
                    jj,
                ) by {
                    if jj < j {
                        assert(spec_description_at(before, attributes@, binding as int, jj));
                        lemma_offset_mono(binding_attributes@, jj + 1, j as int);
                        assert(base + jj < before.len());
                    } else {
                        assert(descriptions@[base + j] == description);
                    }
                }
                assert forall|b: int, jj: int|
                    0 <= b < binding && 0 <= jj < attributes@[b]@.len() implies #[trigger] spec_description_at(
                    descriptions@,
                    attributes@,
                    b,
                    jj,
                ) by {
                    lemma_total_prefix_bound(attributes@.take(binding as int), b + 1);
                    assert(attributes@.take(binding as int).take(b + 1) =~= attributes@.take(b + 1));
                    lemma_total_step(attributes@, b);
                    lemma_total_nonneg(attributes@.take(b));
                    assert(spec_location_base(attributes@, b) + jj < before.len());
                    assert(spec_description_at(before, attributes@, b, jj));
                }
            }
            offset = offset + attribute.size();
            location = location + 1;
            j = j + 1;
        }
        binding = binding + 1;
        proof {
            lemma_total_step(attributes@, binding as int - 1);
        }
    }
    proof {
        assert(attributes@.take(attributes@.len() as int) =~= attributes@);
    }
    descriptions
}

} // verus!
