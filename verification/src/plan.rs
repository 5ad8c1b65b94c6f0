//! Checkpoint catalogs: the tensors a checkpoint must hold, and where it may differ.

use crate::text::push_item;
use vstd::prelude::*;

verus! {

/// Operation class that a GGUF tensor's encoding must serve.
#[derive(Debug, Clone, Copy, PartialEq, Eq, Structural)]
pub enum TensorOperation {
    /// Unquantized use.
    Dense,
    /// Matrix products.
    Matrix,
    /// Elementwise use of one vector.
    Vector,
}

/// Whether a tensor must be there.
#[derive(Debug, Clone, Copy, PartialEq, Eq, Structural)]
pub enum TensorRequirement {
    /// It must.
    Required,
    /// It may be left out.
    Optional,
}

/// One tensor of a GGUF checkpoint.
#[derive(Debug, Clone)]
pub struct GgufTensorConstraint {
    /// Stored name.
    pub key: String,
    /// Logical shape.
    pub shape: Vec<usize>,
    /// Further shapes admitted in its place.
    pub alternate_shapes: Vec<Vec<usize>>,
    /// Exact element count, where it is fixed apart from the shape.
    pub element_count: Option<usize>,
    /// Operation class of the encoding.
    pub operation: TensorOperation,
    /// Whether it must be there.
    pub requirement: TensorRequirement,
}

/// What a GGUF tensor constraint says.
#[verifier::ext_equal]
pub struct GgufTensor {
    pub key: Seq<char>,
    pub shape: Seq<usize>,
    pub alternate_shapes: Seq<Seq<usize>>,
    pub element_count: Option<usize>,
    pub operation: TensorOperation,
    pub requirement: TensorRequirement,
}

impl DeepView for GgufTensorConstraint {
    type V = GgufTensor;

    open spec fn deep_view(&self) -> GgufTensor {
        GgufTensor {
            key: self.key@,
            shape: self.shape@,
            alternate_shapes: self.alternate_shapes.deep_view(),
            element_count: self.element_count,
            operation: self.operation,
            requirement: self.requirement,
        }
    }
}

/// A required GGUF tensor.
pub open spec fn gguf_tensor(
    key: Seq<char>,
    shape: Seq<usize>,
    operation: TensorOperation,
) -> GgufTensor {
    GgufTensor {
        key,
        shape,
        alternate_shapes: Seq::empty(),
        element_count: None,
        operation,
        requirement: TensorRequirement::Required,
    }
}

/// A required matrix.
pub open spec fn gguf_matrix(key: Seq<char>, rows: int, columns: int) -> GgufTensor {
    gguf_tensor(key, seq![rows as usize, columns as usize], TensorOperation::Matrix)
}

/// A required vector.
pub open spec fn gguf_vector(key: Seq<char>, length: int) -> GgufTensor {
    gguf_tensor(key, seq![length as usize], TensorOperation::Vector)
}

/// Appends a required tensor.
pub fn push_gguf(
    tensors: &mut Vec<GgufTensorConstraint>,
    key: String,
    shape: Vec<usize>,
    operation: TensorOperation,
)
    ensures
        final(tensors).deep_view() == old(tensors).deep_view().push(
            gguf_tensor(key@, shape@, operation),
        ),
{
    let tensor = GgufTensorConstraint {
        key,
        shape,
        alternate_shapes: Vec::new(),
        element_count: None,
        operation,
        requirement: TensorRequirement::Required,
    };
    assert(tensor.alternate_shapes.deep_view() =~= Seq::<Seq<usize>>::empty());
    push_item(tensors, tensor);
}

/// Appends a required matrix.
pub fn push_matrix(
    tensors: &mut Vec<GgufTensorConstraint>,
    key: String,
    rows: usize,
    columns: usize,
)
    ensures
        final(tensors).deep_view() == old(tensors).deep_view().push(
            gguf_matrix(key@, rows as int, columns as int),
        ),
{
    let shape: Vec<usize> = vec![rows, columns];
    assert(shape@ =~= seq![rows, columns]);
    push_gguf(tensors, key, shape, TensorOperation::Matrix);
}

/// Appends a required vector.
pub fn push_vector(tensors: &mut Vec<GgufTensorConstraint>, key: String, length: usize)
    ensures
        final(tensors).deep_view() == old(tensors).deep_view().push(
            gguf_vector(key@, length as int),
        ),
{
    let shape: Vec<usize> = vec![length];
    assert(shape@ =~= seq![length]);
    push_gguf(tensors, key, shape, TensorOperation::Vector);
}

/// One way to store a group of tensors.
#[derive(Debug, Clone)]
pub struct LayoutVariant<T> {
    /// Name of the layout.
    pub id: String,
    /// Tensors of the layout.
    pub tensors: Vec<T>,
    /// Names whose presence selects the layout.
    pub discriminator_keys: Vec<String>,
}

/// Alternative ways to store the same tensors.
#[derive(Debug, Clone)]
pub struct AlternativeLayoutGroup<T> {
    /// Name of the group.
    pub id: String,
    /// Whether one of the layouts must be there.
    pub required: bool,
    /// The layouts.
    pub variants: Vec<LayoutVariant<T>>,
}

/// What a layout says.
#[verifier::ext_equal]
pub struct Layout<V> {
    pub id: Seq<char>,
    pub tensors: Seq<V>,
    pub discriminator_keys: Seq<Seq<char>>,
}

/// What a group of layouts says.
#[verifier::ext_equal]
pub struct LayoutGroup<V> {
    pub id: Seq<char>,
    pub required: bool,
    pub variants: Seq<Layout<V>>,
}

impl<T: DeepView> DeepView for LayoutVariant<T> {
    type V = Layout<T::V>;

    open spec fn deep_view(&self) -> Layout<T::V> {
        Layout {
            id: self.id@,
            tensors: self.tensors.deep_view(),
            discriminator_keys: self.discriminator_keys.deep_view(),
        }
    }
}

impl<T: DeepView> DeepView for AlternativeLayoutGroup<T> {
    type V = LayoutGroup<T::V>;

    open spec fn deep_view(&self) -> LayoutGroup<T::V> {
        LayoutGroup {
            id: self.id@,
            required: self.required,
            variants: self.variants.deep_view(),
        }
    }
}

/// The two ways to store an expert bank's gate and up projections.
pub open spec fn gate_up_group<V>(
    id: Seq<char>,
    separate: Seq<V>,
    gate: Seq<char>,
    up: Seq<char>,
    packed: Seq<V>,
    fused: Seq<char>,
) -> LayoutGroup<V> {
    LayoutGroup {
        id,
        required: true,
        variants: seq![
            Layout {
                id: "separate gate and up"@,
                tensors: separate,
                discriminator_keys: seq![gate, up],
            },
            Layout {
                id: "single fused gate and up"@,
                tensors: packed,
                discriminator_keys: seq![fused],
            },
        ],
    }
}

/// Appends the two ways to store an expert bank's gate and up projections.
pub fn push_gate_up_group<T: DeepView>(
    groups: &mut Vec<AlternativeLayoutGroup<T>>,
    id: String,
    separate: Vec<T>,
    gate: String,
    up: String,
    packed: Vec<T>,
    fused: String,
)
    ensures
        final(groups).deep_view() == old(groups).deep_view().push(
            gate_up_group(
                id@,
                separate.deep_view(),
                gate@,
                up@,
                packed.deep_view(),
                fused@,
            ),
        ),
{
    let ghost expected = gate_up_group(
        id@,
        separate.deep_view(),
        gate@,
        up@,
        packed.deep_view(),
        fused@,
    );
    let separate_layout = LayoutVariant {
        id: "separate gate and up".to_owned(),
        tensors: separate,
        discriminator_keys: vec![gate, up],
    };
    let fused_layout = LayoutVariant {
        id: "single fused gate and up".to_owned(),
        tensors: packed,
        discriminator_keys: vec![fused],
    };
    assert(separate_layout.discriminator_keys.deep_view() =~= seq![gate@, up@]);
    assert(fused_layout.discriminator_keys.deep_view() =~= seq![fused@]);
    let group = AlternativeLayoutGroup {
        id,
        required: true,
        variants: vec![separate_layout, fused_layout],
    };
    assert(group.deep_view().variants =~= expected.variants);
    push_item(groups, group);
}

/// Which stored names a catalog admits.
#[derive(Debug, Clone)]
pub struct CatalogPolicy {
    /// Whether names outside the plan are refused.
    pub strict: bool,
    /// Prefixes of names admitted outside the plan.
    pub allowed_prefixes: Vec<String>,
}

/// Complete GGUF catalog.
#[derive(Debug, Clone)]
pub struct GgufCheckpointPlan {
    /// Name of the plan.
    pub name: String,
    /// Tensors of every layout.
    pub common_tensors: Vec<GgufTensorConstraint>,
    /// Groups stored in alternative layouts.
    pub layout_groups: Vec<AlternativeLayoutGroup<GgufTensorConstraint>>,
    /// Names admitted outside the plan.
    pub catalog_policy: CatalogPolicy,
}

} // verus!
