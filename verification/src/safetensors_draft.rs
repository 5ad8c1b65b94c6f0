//! SafeTensors catalog before its matrices are expanded into stored tensors.

use crate::config::ModelArgs;
use crate::errors::Fault;
use crate::safetensors::{
    MatrixFormat, MatrixRequest, Request, SafeTensor, SafetensorsTensorConstraint, aliased_tensor,
    safe, safe_alias, safe_tensor,
};
use crate::text::{push_item, same_text};
use vstd::prelude::*;

verus! {

/// One place of the catalog.
#[derive(Debug, Clone)]
pub enum DraftEntry {
    /// A tensor that no format affects.
    Plain(SafetensorsTensorConstraint),
    /// The stored tensors of a requested matrix, by its place among the requests.
    Matrix(usize),
}

/// What a place of the catalog holds.
pub enum Entry {
    Plain(SafeTensor),
    Matrix(nat),
}

impl DeepView for DraftEntry {
    type V = Entry;

    open spec fn deep_view(&self) -> Entry {
        match self {
            DraftEntry::Plain(tensor) => Entry::Plain(tensor.deep_view()),
            DraftEntry::Matrix(at) => Entry::Matrix(*at as nat),
        }
    }
}

/// The two ways to store an expert bank's gate and up projections, by requested matrices.
#[derive(Debug, Clone)]
pub struct DraftGroup {
    /// Name of the group.
    pub id: String,
    /// Name of the separate gate projection.
    pub gate: String,
    /// Name of the separate up projection.
    pub up: String,
    /// Name of the fused projection.
    pub fused: String,
    /// Place of the request for the separate gate. That for up follows it, then the fused one.
    pub first: usize,
}

/// What a group of requested matrices says.
pub struct Group {
    pub id: Seq<char>,
    pub gate: Seq<char>,
    pub up: Seq<char>,
    pub fused: Seq<char>,
    pub first: nat,
}

impl DeepView for DraftGroup {
    type V = Group;

    open spec fn deep_view(&self) -> Group {
        Group {
            id: self.id@,
            gate: self.gate@,
            up: self.up@,
            fused: self.fused@,
            first: self.first as nat,
        }
    }
}

/// Catalog with requested matrices. A catalog that could not be completed holds what precedes
/// its first geometry error.
#[derive(Debug, Clone)]
pub struct SafetensorsDraft {
    /// Requested matrices, in the order they are expanded.
    pub requests: Vec<MatrixRequest>,
    /// Places of every layout.
    pub common: Vec<DraftEntry>,
    /// Groups stored in alternative layouts.
    pub groups: Vec<DraftGroup>,
    /// First geometry error.
    pub failure: Option<String>,
}

/// What a draft says.
pub struct Draft {
    pub requests: Seq<Request>,
    pub common: Seq<Entry>,
    pub groups: Seq<Group>,
    pub failure: Option<Fault>,
}

impl DeepView for SafetensorsDraft {
    type V = Draft;

    open spec fn deep_view(&self) -> Draft {
        Draft {
            requests: self.requests.deep_view(),
            common: self.common.deep_view(),
            groups: self.groups.deep_view(),
            failure: match self.failure {
                Some(message) => Some(Fault::Invalid(message@)),
                None => None,
            },
        }
    }
}

/// A canonical name, where it differs from the stored one.
pub open spec fn alias_of(source: Seq<char>, canonical: Seq<char>) -> Option<Seq<char>> {
    if source == canonical {
        None
    } else {
        Some(canonical)
    }
}

impl Draft {
    /// Nothing yet.
    pub open spec fn empty() -> Draft {
        Draft {
            requests: Seq::empty(),
            common: Seq::empty(),
            groups: Seq::empty(),
            failure: None,
        }
    }

    /// Whether every place and every group refers to requested matrices.
    #[verifier::opaque]
    pub open spec fn complete(self) -> bool {
        &&& forall|i: int|
            0 <= i < self.common.len() ==> (#[trigger] self.common[i] matches Entry::Matrix(at)
                ==> at < self.requests.len())
        &&& forall|i: int|
            0 <= i < self.groups.len() ==> (#[trigger] self.groups[i]).first + 2
                < self.requests.len()
    }

    /// Ends with `fault`.
    pub open spec fn failed(self, fault: Fault) -> Draft {
        Draft { failure: Some(fault), ..self }
    }

    /// Adds a tensor that no format affects.
    pub open spec fn plain(self, tensor: SafeTensor) -> Draft {
        Draft { common: self.common.push(Entry::Plain(tensor)), ..self }
    }

    /// Adds the request of a matrix without a place.
    pub open spec fn requested(self, request: Request) -> Draft {
        Draft { requests: self.requests.push(request), ..self }
    }

    /// Adds a matrix.
    pub open spec fn matrix(self, request: Request) -> Draft {
        Draft {
            requests: self.requests.push(request),
            common: self.common.push(Entry::Matrix(self.requests.len())),
            ..self
        }
    }

    /// Adds a group of requested matrices.
    pub open spec fn grouped(self, group: Group) -> Draft {
        Draft { groups: self.groups.push(group), ..self }
    }

    /// Adds a tensor of a layer under its released and canonical roots.
    pub open spec fn aliased(
        self,
        released: Seq<char>,
        canonical: Seq<char>,
        local: Seq<char>,
        shape: Seq<usize>,
    ) -> Draft {
        self.plain(aliased_tensor(released + local, canonical + local, shape))
    }

    /// Adds a decoder matrix.
    pub open spec fn text(
        self,
        args: ModelArgs,
        source: Seq<char>,
        canonical: Seq<char>,
        shape: Seq<usize>,
    ) -> Draft {
        self.matrix(text_request(args, source, canonical, shape))
    }

    /// Adds a decoder matrix of a layer under its released and canonical roots.
    pub open spec fn layer_text(
        self,
        args: ModelArgs,
        released: Seq<char>,
        canonical: Seq<char>,
        local: Seq<char>,
        shape: Seq<usize>,
    ) -> Draft {
        self.text(args, released + local, canonical + local, shape)
    }

    /// Adds a media tensor.
    pub open spec fn media(self, key: Seq<char>, shape: Seq<usize>) -> Draft {
        self.plain(safe_tensor(key, shape))
    }

    /// Adds a media matrix.
    pub open spec fn tower(self, key: Seq<char>, shape: Seq<usize>, format: MatrixFormat) -> Draft {
        self.matrix(Request { key, alias: None, shape, format })
    }

    /// Adds a media matrix with the bounds its inputs and outputs are clipped to.
    pub open spec fn clipped(
        self,
        prefix: Seq<char>,
        shape: Seq<usize>,
        format: MatrixFormat,
    ) -> Draft {
        self.tower(prefix + ".linear.weight"@, shape, format).media(
            prefix + ".input_min"@,
            Seq::empty(),
        ).media(prefix + ".input_max"@, Seq::empty()).media(
            prefix + ".output_min"@,
            Seq::empty(),
        ).media(prefix + ".output_max"@, Seq::empty())
    }
}

/// Request of a decoder matrix, in the format selected for its canonical name.
pub open spec fn text_request(
    args: ModelArgs,
    source: Seq<char>,
    canonical: Seq<char>,
    shape: Seq<usize>,
) -> Request {
    Request {
        key: source,
        alias: alias_of(source, canonical),
        shape,
        format: MatrixFormat::Settled(args.format_of(canonical)),
    }
}

pub(crate) fn shape0() -> (r: Vec<usize>)
    ensures
        r@ == Seq::<usize>::empty(),
{
    Vec::new()
}

pub(crate) fn shape1(a: usize) -> (r: Vec<usize>)
    ensures
        r@ == seq![a],
{
    let r = vec![a];
    assert(r@ =~= seq![a]);
    r
}

pub(crate) fn shape2(a: usize, b: usize) -> (r: Vec<usize>)
    ensures
        r@ == seq![a, b],
{
    let r = vec![a, b];
    assert(r@ =~= seq![a, b]);
    r
}

pub(crate) fn shape3(a: usize, b: usize, c: usize) -> (r: Vec<usize>)
    ensures
        r@ == seq![a, b, c],
{
    let r = vec![a, b, c];
    assert(r@ =~= seq![a, b, c]);
    r
}

pub(crate) fn shape4(a: usize, b: usize, c: usize, d: usize) -> (r: Vec<usize>)
    ensures
        r@ == seq![a, b, c, d],
{
    let r = vec![a, b, c, d];
    assert(r@ =~= seq![a, b, c, d]);
    r
}

impl SafetensorsDraft {
    pub(crate) fn new() -> (r: SafetensorsDraft)
        ensures
            r.deep_view() == Draft::empty(),
            r.deep_view().complete(),
    {
        proof {
            reveal(Draft::complete);
        }
        let r = SafetensorsDraft {
            requests: Vec::new(),
            common: Vec::new(),
            groups: Vec::new(),
            failure: None,
        };
        assert(r.requests.deep_view() =~= Seq::empty());
        assert(r.common.deep_view() =~= Seq::empty());
        assert(r.groups.deep_view() =~= Seq::empty());
        r
    }

    pub(crate) fn fail(&mut self, message: String)
        ensures
            final(self).deep_view() == old(self).deep_view().failed(Fault::Invalid(message@)),
            old(self).deep_view().complete() ==> final(self).deep_view().complete(),
    {
        proof {
            reveal(Draft::complete);
        }
        self.failure = Some(message);
    }

    pub(crate) fn plain(&mut self, tensor: SafetensorsTensorConstraint)
        ensures
            final(self).deep_view() == old(self).deep_view().plain(tensor.deep_view()),
            old(self).deep_view().complete() ==> final(self).deep_view().complete(),
    {
        proof {
            reveal(Draft::complete);
        }
        push_item(&mut self.common, DraftEntry::Plain(tensor));
    }

    pub(crate) fn requested(&mut self, request: MatrixRequest)
        ensures
            final(self).deep_view() == old(self).deep_view().requested(request.deep_view()),
            old(self).deep_view().complete() ==> final(self).deep_view().complete(),
    {
        proof {
            reveal(Draft::complete);
        }
        push_item(&mut self.requests, request);
    }

    pub(crate) fn matrix(&mut self, request: MatrixRequest)
        ensures
            final(self).deep_view() == old(self).deep_view().matrix(request.deep_view()),
            old(self).deep_view().complete() ==> final(self).deep_view().complete(),
    {
        proof {
            reveal(Draft::complete);
        }
        let at: usize = self.requests.len();
        push_item(&mut self.requests, request);
        push_item(&mut self.common, DraftEntry::Matrix(at));
    }

    pub(crate) fn group(&mut self, group: DraftGroup)
        ensures
            final(self).deep_view() == old(self).deep_view().grouped(group.deep_view()),
            old(self).deep_view().complete() && group.first + 2 < old(self).requests.len()
                ==> final(self).deep_view().complete(),
    {
        proof {
            reveal(Draft::complete);
        }
        push_item(&mut self.groups, group);
    }

    pub(crate) fn aliased(&mut self, released: &str, canonical: &str, local: &str, shape: Vec<usize>)
        ensures
            final(self).deep_view() == old(self).deep_view().aliased(
                released@,
                canonical@,
                local@,
                shape@,
            ),
            old(self).deep_view().complete() ==> final(self).deep_view().complete(),
    {
        self.plain(
            safe_alias(
                released.to_owned().concat(local),
                canonical.to_owned().concat(local),
                shape,
            ),
        );
    }

    pub(crate) fn text(&mut self, args: &ModelArgs, source: String, canonical: &str, shape: Vec<usize>)
        ensures
            final(self).deep_view() == old(self).deep_view().text(
                *args,
                source@,
                canonical@,
                shape@,
            ),
            old(self).deep_view().complete() ==> final(self).deep_view().complete(),
    {
        self.matrix(add_text_matrix(args, source, canonical, shape));
    }

    pub(crate) fn layer_text(
        &mut self,
        args: &ModelArgs,
        released: &str,
        canonical: &str,
        local: &str,
        shape: Vec<usize>,
    )
        ensures
            final(self).deep_view() == old(self).deep_view().layer_text(
                *args,
                released@,
                canonical@,
                local@,
                shape@,
            ),
            old(self).deep_view().complete() ==> final(self).deep_view().complete(),
    {
        self.text(
            args,
            released.to_owned().concat(local),
            canonical.to_owned().concat(local).as_str(),
            shape,
        );
    }

    pub(crate) fn media(&mut self, key: String, shape: Vec<usize>)
        ensures
            final(self).deep_view() == old(self).deep_view().media(key@, shape@),
            old(self).deep_view().complete() ==> final(self).deep_view().complete(),
    {
        self.plain(safe(key, shape));
    }

    pub(crate) fn tower(&mut self, key: String, shape: Vec<usize>, format: MatrixFormat)
        ensures
            final(self).deep_view() == old(self).deep_view().tower(key@, shape@, format),
            old(self).deep_view().complete() ==> final(self).deep_view().complete(),
    {
        self.matrix(MatrixRequest { key, alias: None, shape, format });
    }

    pub(crate) fn clipped(&mut self, prefix: &str, shape: Vec<usize>, format: MatrixFormat)
        ensures
            final(self).deep_view() == old(self).deep_view().clipped(prefix@, shape@, format),
            old(self).deep_view().complete() ==> final(self).deep_view().complete(),
    {
        self.tower(prefix.to_owned().concat(".linear.weight"), shape, format);
        self.media(prefix.to_owned().concat(".input_min"), shape0());
        self.media(prefix.to_owned().concat(".input_max"), shape0());
        self.media(prefix.to_owned().concat(".output_min"), shape0());
        self.media(prefix.to_owned().concat(".output_max"), shape0());
    }
}

/// Requests a decoder matrix, in the format selected for its canonical name.
pub(crate) fn add_text_matrix(args: &ModelArgs, source: String, canonical: &str, shape: Vec<usize>) -> (r:
    MatrixRequest)
    ensures
        r.deep_view() == text_request(*args, source@, canonical@, shape@),
{
    let alias: Option<String> = if same_text(source.as_str(), canonical) {
        None
    } else {
        Some(canonical.to_owned())
    };
    MatrixRequest {
        key: source,
        alias,
        shape,
        format: MatrixFormat::Settled(args.linear_format_for(canonical)),
    }
}

} // verus!
