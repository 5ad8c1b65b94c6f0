//! SafeTensors catalog entries, and the matrices whose storage a weight format decides.

use crate::formats::LinearFormat;
use crate::plan::{AlternativeLayoutGroup, CatalogPolicy, TensorRequirement};
use crate::text::{copy_texts, push_item};
use vstd::prelude::*;

verus! {

/// Stored type that a SafeTensors tensor must have.
#[derive(Debug, Clone, Copy, PartialEq, Eq, Structural)]
pub enum StoredDtypeConstraint {
    /// Any floating-point type.
    Floating,
    /// Any further constraint, by the identity its weight format assigns.
    Other {
        /// Assigned identity.
        id: u32,
    },
}

/// What a stored tensor is to its weight.
#[derive(Debug, Clone, Copy, PartialEq, Eq, Structural)]
pub enum TensorRole {
    /// The weight itself.
    Tensor,
    /// A companion of a quantized weight, such as its scales.
    Companion,
}

/// One tensor of a SafeTensors checkpoint.
#[derive(Debug)]
pub struct SafetensorsTensorConstraint {
    /// Stored name.
    pub key: String,
    /// Names admitted in its place.
    pub aliases: Vec<String>,
    /// Logical shape.
    pub shape: Vec<usize>,
    /// Further shapes admitted in its place.
    pub alternate_shapes: Vec<Vec<usize>>,
    /// Exact element count, where it is fixed apart from the shape.
    pub element_count: Option<usize>,
    /// Stored type.
    pub dtype: StoredDtypeConstraint,
    /// What it is to its weight.
    pub role: TensorRole,
    /// Whether it must be there.
    pub requirement: TensorRequirement,
}

/// What a SafeTensors tensor constraint says.
#[verifier::ext_equal]
pub struct SafeTensor {
    pub key: Seq<char>,
    pub aliases: Seq<Seq<char>>,
    pub shape: Seq<usize>,
    pub alternate_shapes: Seq<Seq<usize>>,
    pub element_count: Option<usize>,
    pub dtype: StoredDtypeConstraint,
    pub role: TensorRole,
    pub requirement: TensorRequirement,
}

impl DeepView for SafetensorsTensorConstraint {
    type V = SafeTensor;

    open spec fn deep_view(&self) -> SafeTensor {
        SafeTensor {
            key: self.key@,
            aliases: self.aliases.deep_view(),
            shape: self.shape@,
            alternate_shapes: self.alternate_shapes.deep_view(),
            element_count: self.element_count,
            dtype: self.dtype,
            role: self.role,
            requirement: self.requirement,
        }
    }
}

/// Copies a list of shapes.
pub(crate) fn copy_shapes(shapes: &Vec<Vec<usize>>) -> (r: Vec<Vec<usize>>)
    ensures
        r.deep_view() == shapes.deep_view(),
{
    let mut r: Vec<Vec<usize>> = Vec::new();
    let mut at: usize = 0;
    while at < shapes.len()
        invariant
            at <= shapes.len(),
            r.deep_view() == shapes.deep_view().take(at as int),
        decreases shapes.len() - at,
    {
        let shape: Vec<usize> = shapes[at].clone();
        assert(shape.deep_view() =~= shapes[at as int].deep_view());
        push_item(&mut r, shape);
        assert(shapes.deep_view()[at as int] == shapes[at as int].deep_view());
        assert(r.deep_view() =~= shapes.deep_view().take(at as int + 1));
        at = at + 1;
    }
    assert(shapes.deep_view().take(shapes.len() as int) =~= shapes.deep_view());
    r
}

impl Clone for SafetensorsTensorConstraint {
    fn clone(&self) -> (r: SafetensorsTensorConstraint)
        ensures
            r.deep_view() == self.deep_view(),
    {
        SafetensorsTensorConstraint {
            key: self.key.clone(),
            aliases: copy_texts(&self.aliases),
            shape: self.shape.clone(),
            alternate_shapes: copy_shapes(&self.alternate_shapes),
            element_count: self.element_count,
            dtype: self.dtype,
            role: self.role,
            requirement: self.requirement,
        }
    }
}

/// A required floating-point tensor.
pub open spec fn safe_tensor(key: Seq<char>, shape: Seq<usize>) -> SafeTensor {
    SafeTensor {
        key,
        aliases: Seq::empty(),
        shape,
        alternate_shapes: Seq::empty(),
        element_count: None,
        dtype: StoredDtypeConstraint::Floating,
        role: TensorRole::Tensor,
        requirement: TensorRequirement::Required,
    }
}

/// A tensor that may be left out.
pub open spec fn left_optional(tensor: SafeTensor) -> SafeTensor {
    SafeTensor { requirement: TensorRequirement::Optional, ..tensor }
}

/// A required floating-point tensor that is also admitted under its canonical name.
pub open spec fn aliased_tensor(
    source: Seq<char>,
    canonical: Seq<char>,
    shape: Seq<usize>,
) -> SafeTensor {
    SafeTensor {
        aliases: if source == canonical {
            Seq::empty()
        } else {
            seq![canonical]
        },
        ..safe_tensor(source, shape)
    }
}

/// Builds a required floating-point tensor.
pub fn safe(name: String, shape: Vec<usize>) -> (r: SafetensorsTensorConstraint)
    ensures
        r.deep_view() == safe_tensor(name@, shape@),
{
    let r = SafetensorsTensorConstraint {
        key: name,
        aliases: Vec::new(),
        shape,
        alternate_shapes: Vec::new(),
        element_count: None,
        dtype: StoredDtypeConstraint::Floating,
        role: TensorRole::Tensor,
        requirement: TensorRequirement::Required,
    };
    assert(r.deep_view() =~= safe_tensor(name@, shape@));
    r
}

/// Builds a required floating-point tensor that is also admitted under its canonical name.
pub fn safe_alias(source: String, canonical: String, shape: Vec<usize>) -> (r:
    SafetensorsTensorConstraint)
    ensures
        r.deep_view() == aliased_tensor(source@, canonical@, shape@),
{
    let ghost expected = aliased_tensor(source@, canonical@, shape@);
    let same: bool = source == canonical;
    let mut r = safe(source, shape);
    if !same {
        r.aliases = vec![canonical];
    }
    assert(r.deep_view() =~= expected);
    r
}

/// How the storage of a matrix is decided.
#[derive(Debug, Clone, Copy, PartialEq, Eq, Structural)]
pub enum MatrixFormat {
    /// By a settled weight format.
    Settled(LinearFormat),
    /// By the format that the vision tower selects for the matrix, given its input width.
    Vision {
        /// Input width.
        input: i32,
    },
    /// By the format that the audio tower selects for the matrix, given its input width.
    Audio {
        /// Input width.
        input: i32,
    },
}

/// A matrix whose stored tensors depend on its weight format.
#[derive(Debug, Clone)]
pub struct MatrixRequest {
    /// Stored name.
    pub key: String,
    /// Canonical name, where it differs.
    pub alias: Option<String>,
    /// Logical shape.
    pub shape: Vec<usize>,
    /// How the storage is decided.
    pub format: MatrixFormat,
}

/// What a matrix request says.
pub struct Request {
    pub key: Seq<char>,
    pub alias: Option<Seq<char>>,
    pub shape: Seq<usize>,
    pub format: MatrixFormat,
}

impl DeepView for MatrixRequest {
    type V = Request;

    open spec fn deep_view(&self) -> Request {
        Request {
            key: self.key@,
            alias: self.alias.deep_view(),
            shape: self.shape@,
            format: self.format,
        }
    }
}

/// Complete SafeTensors catalog.
#[derive(Debug, Clone)]
pub struct SafetensorsCheckpointPlan {
    /// Name of the plan.
    pub name: String,
    /// Tensors of every layout.
    pub common_tensors: Vec<SafetensorsTensorConstraint>,
    /// Groups stored in alternative layouts.
    pub layout_groups: Vec<AlternativeLayoutGroup<SafetensorsTensorConstraint>>,
    /// Names admitted outside the plan.
    pub catalog_policy: CatalogPolicy,
}

} // verus!
