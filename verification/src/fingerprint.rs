//! Fields of the architecture and prompt-cache identity.

use crate::config::{ModelArgs, RopeValue, attention_key};
use crate::names::StringMap;
use crate::order::{law_sorting_is_order_free, sort_texts, sorted_texts};
use crate::pipeline::{attention_debug, attention_debug_text};
use crate::schedule::{
    AttentionPolicy, AttentionStateSource, LayerPolicy, attention_component, feed_forward_component,
    state_component,
};
use crate::text::{
    decimal, decimal_text, hex_text, hexadecimal, join_texts, joined, lemma_numeral,
    lemma_numeral_unique, push_item, signed_decimal, signed_text,
};
use vstd::prelude::*;

verus! {

/// Debug texts of the values that the identity covers.
#[derive(Debug, Clone)]
pub struct FingerprintTexts {
    /// Full-attention rotary overrides, in entry order.
    pub full_rope: Vec<String>,
    /// Sliding-attention rotary overrides, in entry order.
    pub sliding_rope: Vec<String>,
    /// Model-wide encoding.
    pub quantization: String,
    /// Weights that the model-wide encoding covers.
    pub quantized_weights: String,
    /// Exact per-weight encodings.
    pub quantized_weight_configs: String,
}

impl FingerprintTexts {
    /// Texts of the overrides of an attention kind.
    pub open spec fn rope(self, attention: AttentionPolicy) -> Seq<Seq<char>> {
        match attention {
            AttentionPolicy::Full => self.full_rope.deep_view(),
            AttentionPolicy::Sliding { .. } => self.sliding_rope.deep_view(),
        }
    }

    /// Every override of `args` has its text.
    pub open spec fn cover(self, args: ModelArgs) -> bool {
        forall|attention: AttentionPolicy|
            #![trigger self.rope(attention)]
            args.rope_overrides(attention) matches Some(overrides) ==> self.rope(attention).len()
                == overrides.names().len()
    }
}

/// Entries as `name=value` texts.
pub open spec fn entry_texts(names: Seq<Seq<char>>, values: Seq<Seq<char>>) -> Seq<Seq<char>> {
    Seq::new(names.len(), |i: int| names[i] + "="@ + values[i])
}

/// Overrides of an attention kind, as sorted entries.
pub open spec fn scaling_text(
    args: ModelArgs,
    texts: FingerprintTexts,
    attention: AttentionPolicy,
) -> Seq<char> {
    match args.rope_overrides(attention) {
        Some(overrides) => joined(
            sorted_texts(entry_texts(overrides.names(), texts.rope(attention))),
            ";"@,
        ),
        None => joined(sorted_texts(Seq::empty()), ";"@),
    }
}

/// Rotary policy of one layer.
pub open spec fn layer_rope_text(
    args: ModelArgs,
    texts: FingerprintTexts,
    attention: AttentionPolicy,
) -> Seq<char> {
    attention_debug(attention) + ":"@ + hexadecimal(
        args.rope_theta_spec(attention).bits as nat,
        8,
    ) + ":"@ + scaling_text(args, texts, attention)
}

/// Rotary policies of all layers.
pub open spec fn layer_rope(args: ModelArgs, texts: FingerprintTexts) -> Seq<char> {
    joined(
        Seq::new(
            args.layer_schedule.len() as nat,
            |layer: int| layer_rope_text(args, texts, args.layer_schedule[layer].attention),
        ),
        ","@,
    )
}

/// Schedule components of all layers.
pub open spec fn schedule_text(schedule: Seq<LayerPolicy>) -> Seq<char> {
    joined(Seq::new(schedule.len(), |layer: int| schedule[layer].component()), ","@)
}

/// Named fields of the identity, in order.
pub open spec fn fingerprint_fields(args: ModelArgs, texts: FingerprintTexts) -> Seq<
    (Seq<char>, Seq<char>),
> {
    seq![
        ("model_type"@, args.model_type@),
        ("hidden_size"@, signed_decimal(args.hidden_size as int)),
        ("num_hidden_layers"@, decimal(args.layer_schedule.len() as nat)),
        ("num_attention_heads"@, signed_decimal(args.num_attention_heads as int)),
        ("max_position_embeddings"@, signed_decimal(args.max_position_embeddings as int)),
        ("layer_schedule"@, schedule_text(args.layer_schedule@)),
        ("layer_rope"@, layer_rope(args, texts)),
        ("quantization"@, texts.quantization@),
        ("quantized_weights"@, texts.quantized_weights@),
        ("quantized_weight_configs"@, texts.quantized_weight_configs@),
    ]
}

fn list_entries(overrides: &StringMap<RopeValue>, values: &Vec<String>) -> (r: Vec<String>)
    requires
        values.len() == overrides.names().len(),
    ensures
        r.deep_view() == entry_texts(overrides.names(), values.deep_view()),
{
    let ghost all = entry_texts(overrides.names(), values.deep_view());
    let mut entries: Vec<String> = Vec::new();
    let mut at: usize = 0;
    assert(entries.deep_view() =~= all.take(0));
    while at < values.len()
        invariant
            at <= values.len(),
            values.len() == overrides.names().len(),
            all == entry_texts(overrides.names(), values.deep_view()),
            entries.deep_view() == all.take(at as int),
        decreases values.len() - at,
    {
        push_item(
            &mut entries,
            overrides.name_at(at).to_owned().concat("=").concat(values[at].as_str()),
        );
        assert(entries.deep_view() =~= all.take(at as int + 1));
        at = at + 1;
    }
    assert(all.take(all.len() as int) =~= all);
    entries
}

impl ModelArgs {
    fn scaling(&self, texts: &FingerprintTexts, attention: AttentionPolicy) -> (r: String)
        requires
            texts.cover(*self),
        ensures
            r@ == scaling_text(*self, *texts, attention),
    {
        assert(texts.rope(attention).len() >= 0);
        let values: &Vec<String> = match attention {
            AttentionPolicy::Full => &texts.full_rope,
            AttentionPolicy::Sliding { .. } => &texts.sliding_rope,
        };
        assert(values.deep_view() == texts.rope(attention));
        if let Some(parameters) = &self.rope_parameters {
            if let Some(overrides) = parameters.get(attention_key(attention)) {
                return join_texts(&sort_texts(list_entries(overrides, values)), ";");
            }
        }
        let none: Vec<String> = Vec::new();
        assert(none.deep_view() =~= Seq::empty());
        join_texts(&sort_texts(none), ";")
    }

    fn rope_text(&self, texts: &FingerprintTexts, attention: AttentionPolicy) -> (r: String)
        requires
            texts.cover(*self),
        ensures
            r@ == layer_rope_text(*self, *texts, attention),
    {
        attention_debug_text(attention).concat(":").concat(
            hex_text(self.rope_theta_for(attention).bits, 8).as_str(),
        ).concat(":").concat(self.scaling(texts, attention).as_str())
    }

    fn rope_texts(&self, texts: &FingerprintTexts) -> (r: String)
        requires
            texts.cover(*self),
        ensures
            r@ == layer_rope(*self, *texts),
    {
        let ghost all = Seq::new(
            self.layer_schedule.len() as nat,
            |layer: int| layer_rope_text(*self, *texts, self.layer_schedule[layer].attention),
        );
        let mut parts: Vec<String> = Vec::new();
        let mut layer: usize = 0;
        assert(parts.deep_view() =~= all.take(0));
        while layer < self.layer_schedule.len()
            invariant
                layer <= self.layer_schedule.len(),
                texts.cover(*self),
                all == Seq::new(
                    self.layer_schedule.len() as nat,
                    |layer: int|
                        layer_rope_text(*self, *texts, self.layer_schedule[layer].attention),
                ),
                parts.deep_view() == all.take(layer as int),
            decreases self.layer_schedule.len() - layer,
        {
            push_item(&mut parts, self.rope_text(texts, self.layer_schedule[layer].attention));
            assert(parts.deep_view() =~= all.take(layer as int + 1));
            layer = layer + 1;
        }
        assert(all.take(all.len() as int) =~= all);
        join_texts(&parts, ",")
    }

    fn schedule_texts(&self) -> (r: String)
        ensures
            r@ == schedule_text(self.layer_schedule@),
    {
        let ghost all = Seq::new(
            self.layer_schedule@.len(),
            |layer: int| self.layer_schedule@[layer].component(),
        );
        let mut parts: Vec<String> = Vec::new();
        let mut layer: usize = 0;
        assert(parts.deep_view() =~= all.take(0));
        while layer < self.layer_schedule.len()
            invariant
                layer <= self.layer_schedule.len(),
                all == Seq::new(
                    self.layer_schedule@.len(),
                    |layer: int| self.layer_schedule@[layer].component(),
                ),
                parts.deep_view() == all.take(layer as int),
            decreases self.layer_schedule.len() - layer,
        {
            push_item(&mut parts, self.layer_schedule[layer].fingerprint_component());
            assert(parts.deep_view() =~= all.take(layer as int + 1));
            layer = layer + 1;
        }
        assert(all.take(all.len() as int) =~= all);
        join_texts(&parts, ",")
    }

    /// Fields of the stable architecture/cache identity, derived entirely from normalized policy.
    pub fn architecture_fingerprint(&self, texts: &FingerprintTexts) -> (r: Vec<(String, String)>)
        requires
            texts.cover(*self),
        ensures
            r.deep_view() == fingerprint_fields(*self, *texts),
    {
        let mut fields: Vec<(String, String)> = Vec::new();
        push_item(&mut fields, ("model_type".to_owned(), self.model_type.clone()));
        push_item(&mut fields, ("hidden_size".to_owned(), signed_text(self.hidden_size)));
        push_item(
            &mut fields,
            ("num_hidden_layers".to_owned(), decimal_text(self.num_hidden_layers() as u64)),
        );
        push_item(
            &mut fields,
            ("num_attention_heads".to_owned(), signed_text(self.num_attention_heads)),
        );
        push_item(
            &mut fields,
            ("max_position_embeddings".to_owned(), signed_text(self.max_position_embeddings)),
        );
        push_item(&mut fields, ("layer_schedule".to_owned(), self.schedule_texts()));
        push_item(&mut fields, ("layer_rope".to_owned(), self.rope_texts(texts)));
        push_item(&mut fields, ("quantization".to_owned(), texts.quantization.clone()));
        push_item(
            &mut fields,
            ("quantized_weights".to_owned(), texts.quantized_weights.clone()),
        );
        push_item(
            &mut fields,
            ("quantized_weight_configs".to_owned(), texts.quantized_weight_configs.clone()),
        );
        assert(fields.deep_view() =~= fingerprint_fields(*self, *texts));
        fields
    }
}

/// The identity forgets the order in which rotary overrides are listed.
pub proof fn law_identity_forgets_override_order(
    left: ModelArgs,
    left_texts: FingerprintTexts,
    right: ModelArgs,
    right_texts: FingerprintTexts,
    attention: AttentionPolicy,
)
    requires
        left.rope_overrides(attention) is Some,
        right.rope_overrides(attention) is Some,
        entry_texts(
            left.rope_overrides(attention)->0.names(),
            left_texts.rope(attention),
        ).to_multiset() == entry_texts(
            right.rope_overrides(attention)->0.names(),
            right_texts.rope(attention),
        ).to_multiset(),
        left.rope_theta_spec(attention) == right.rope_theta_spec(attention),
    ensures
        layer_rope_text(left, left_texts, attention) == layer_rope_text(
            right,
            right_texts,
            attention,
        ),
{
    law_sorting_is_order_free(
        entry_texts(left.rope_overrides(attention)->0.names(), left_texts.rope(attention)),
        entry_texts(right.rope_overrides(attention)->0.names(), right_texts.rope(attention)),
    );
}

/// Whether `mark` does not occur in `text`.
pub open spec fn free_of(text: Seq<char>, mark: char) -> bool {
    forall|i: int| 0 <= i < text.len() ==> #[trigger] text[i] != mark
}

/// Two texts that agree up to and after a mark that neither head holds have equal heads and tails.
proof fn lemma_unique_split(
    left: Seq<char>,
    left_rest: Seq<char>,
    right: Seq<char>,
    right_rest: Seq<char>,
    mark: char,
)
    requires
        free_of(left, mark),
        free_of(right, mark),
        left + seq![mark] + left_rest == right + seq![mark] + right_rest,
    ensures
        left == right,
        left_rest == right_rest,
{
    let whole = left + seq![mark] + left_rest;
    let other = right + seq![mark] + right_rest;
    assert(whole[left.len() as int] == mark);
    assert(other[right.len() as int] == mark);
    if left.len() < right.len() {
        assert(other[left.len() as int] == right[left.len() as int]);
    }
    if right.len() < left.len() {
        assert(whole[right.len() as int] == left[right.len() as int]);
    }
    assert forall|i: int| 0 <= i < left.len() implies left[i] == right[i] by {
        assert(whole[i] == left[i]);
        assert(other[i] == right[i]);
    }
    assert(left =~= right);
    assert(whole.len() == left.len() + 1 + left_rest.len());
    assert(other.len() == right.len() + 1 + right_rest.len());
    assert forall|i: int| 0 <= i < left_rest.len() implies left_rest[i] == right_rest[i] by {
        assert(whole[left.len() + 1 + i] == left_rest[i]);
        assert(other[left.len() + 1 + i] == right_rest[i]);
    }
    assert(left_rest =~= right_rest);
}

/// Text of a component after its attention.
spec fn after_attention(policy: LayerPolicy) -> Seq<char> {
    ("h"@ + decimal(policy.head_dim as nat)) + seq![':'] + after_width(policy)
}

spec fn after_width(policy: LayerPolicy) -> Seq<char> {
    ("k"@ + decimal(policy.num_key_value_heads as nat)) + seq![':'] + after_heads(policy)
}

spec fn after_heads(policy: LayerPolicy) -> Seq<char> {
    state_component(policy.key_value) + seq![':'] + after_state(policy)
}

spec fn after_state(policy: LayerPolicy) -> Seq<char> {
    ("i"@ + decimal(policy.intermediate_size as nat)) + seq![':'] + feed_forward_component(
        policy.feed_forward,
    )
}

proof fn lemma_literals()
    ensures
        "f"@ == seq!['f'],
        "s"@ == seq!['s'],
        "h"@ == seq!['h'],
        "k"@ == seq!['k'],
        "i"@ == seq!['i'],
        "d"@ == seq!['d'],
        "m"@ == seq!['m'],
        ":"@ == seq![':'],
        ","@ == seq![','],
        ":h"@ == seq![':', 'h'],
        ":k"@ == seq![':', 'k'],
        ":i"@ == seq![':', 'i'],
        "lp"@ == seq!['l', 'p'],
        "lr"@ == seq!['l', 'r'],
        "pp"@ == seq!['p', 'p'],
        "pr"@ == seq!['p', 'r'],
{
    reveal_strlit("f");
    reveal_strlit("s");
    reveal_strlit("h");
    reveal_strlit("k");
    reveal_strlit("i");
    reveal_strlit("d");
    reveal_strlit("m");
    reveal_strlit(":");
    reveal_strlit(",");
    reveal_strlit(":h");
    reveal_strlit(":k");
    reveal_strlit(":i");
    reveal_strlit("lp");
    reveal_strlit("lr");
    reveal_strlit("pp");
    reveal_strlit("pr");
    assert("f"@ =~= seq!['f']);
    assert("s"@ =~= seq!['s']);
    assert("h"@ =~= seq!['h']);
    assert("k"@ =~= seq!['k']);
    assert("i"@ =~= seq!['i']);
    assert("d"@ =~= seq!['d']);
    assert("m"@ =~= seq!['m']);
    assert(":"@ =~= seq![':']);
    assert(","@ =~= seq![',']);
    assert(":h"@ =~= seq![':', 'h']);
    assert(":k"@ =~= seq![':', 'k']);
    assert(":i"@ =~= seq![':', 'i']);
    assert("lp"@ =~= seq!['l', 'p']);
    assert("lr"@ =~= seq!['l', 'r']);
    assert("pp"@ =~= seq!['p', 'p']);
    assert("pr"@ =~= seq!['p', 'r']);
}

proof fn lemma_component_shape(policy: LayerPolicy)
    ensures
        policy.component() == attention_component(policy.attention) + seq![':'] + after_attention(
            policy,
        ),
{
    lemma_literals();
    let attention = attention_component(policy.attention);
    let width = attention + seq![':', 'h'] + decimal(policy.head_dim as nat);
    let heads = width + seq![':', 'k'] + decimal(policy.num_key_value_heads as nat);
    let state = heads + seq![':'] + state_component(policy.key_value);
    let intermediate = decimal(policy.intermediate_size as nat);
    lemma_peel_tagged(state, 'i', intermediate, feed_forward_component(policy.feed_forward));
    lemma_peel(heads, state_component(policy.key_value), after_state(policy));
    lemma_peel_tagged(
        width,
        'k',
        decimal(policy.num_key_value_heads as nat),
        after_heads(policy),
    );
    lemma_peel_tagged(attention, 'h', decimal(policy.head_dim as nat), after_width(policy));
}

proof fn lemma_peel(head: Seq<char>, part: Seq<char>, rest: Seq<char>)
    ensures
        head + seq![':'] + part + seq![':'] + rest == head + seq![':'] + (part + seq![':'] + rest),
{
    assert(head + seq![':'] + part + seq![':'] + rest =~= head + seq![':'] + (part + seq![':']
        + rest));
}

proof fn lemma_peel_tagged(head: Seq<char>, tag: char, part: Seq<char>, rest: Seq<char>)
    ensures
        head + seq![':', tag] + part + seq![':'] + rest == head + seq![':'] + (seq![tag] + part
            + seq![':'] + rest),
{
    assert(head + seq![':', tag] =~= head + seq![':'] + seq![tag]);
    assert(head + seq![':'] + seq![tag] + part =~= head + seq![':'] + (seq![tag] + part));
    lemma_peel(head, seq![tag] + part, rest);
}

proof fn lemma_parts_free(policy: LayerPolicy, mark: char)
    requires
        mark == ':' || mark == ',',
    ensures
        free_of(attention_component(policy.attention), mark),
        free_of("h"@ + decimal(policy.head_dim as nat), mark),
        free_of("k"@ + decimal(policy.num_key_value_heads as nat), mark),
        free_of(state_component(policy.key_value), mark),
        free_of("i"@ + decimal(policy.intermediate_size as nat), mark),
        free_of(feed_forward_component(policy.feed_forward), mark),
{
    lemma_literals();
    lemma_numeral(policy.head_dim as nat);
    lemma_numeral(policy.num_key_value_heads as nat);
    lemma_numeral(policy.intermediate_size as nat);
    if let AttentionPolicy::Sliding { window } = policy.attention {
        lemma_numeral(window as nat);
    }
}

proof fn lemma_tagged_numeral_unique(tag: char, left: nat, right: nat)
    requires
        seq![tag] + decimal(left) == seq![tag] + decimal(right),
    ensures
        left == right,
{
    assert((seq![tag] + decimal(left)).drop_first() =~= decimal(left));
    assert((seq![tag] + decimal(right)).drop_first() =~= decimal(right));
    lemma_numeral_unique(left, right);
}

/// Different layer policies have different schedule components.
pub proof fn law_components_identify_policies(left: LayerPolicy, right: LayerPolicy)
    requires
        left.component() == right.component(),
    ensures
        left == right,
{
    lemma_component_shape(left);
    lemma_component_shape(right);
    lemma_parts_free(left, ':');
    lemma_parts_free(right, ':');
    lemma_unique_split(
        attention_component(left.attention),
        after_attention(left),
        attention_component(right.attention),
        after_attention(right),
        ':',
    );
    lemma_unique_split(
        "h"@ + decimal(left.head_dim as nat),
        after_width(left),
        "h"@ + decimal(right.head_dim as nat),
        after_width(right),
        ':',
    );
    lemma_unique_split(
        "k"@ + decimal(left.num_key_value_heads as nat),
        after_heads(left),
        "k"@ + decimal(right.num_key_value_heads as nat),
        after_heads(right),
        ':',
    );
    lemma_unique_split(
        state_component(left.key_value),
        after_state(left),
        state_component(right.key_value),
        after_state(right),
        ':',
    );
    lemma_unique_split(
        "i"@ + decimal(left.intermediate_size as nat),
        feed_forward_component(left.feed_forward),
        "i"@ + decimal(right.intermediate_size as nat),
        feed_forward_component(right.feed_forward),
        ':',
    );
    lemma_literals();
    lemma_tagged_numeral_unique('h', left.head_dim as nat, right.head_dim as nat);
    lemma_tagged_numeral_unique(
        'k',
        left.num_key_value_heads as nat,
        right.num_key_value_heads as nat,
    );
    lemma_tagged_numeral_unique(
        'i',
        left.intermediate_size as nat,
        right.intermediate_size as nat,
    );
    lemma_attention_unique(left.attention, right.attention);
    lemma_state_unique(left.key_value, right.key_value);
    assert(left.feed_forward == right.feed_forward) by {
        assert(feed_forward_component(left.feed_forward)[0] == feed_forward_component(
            right.feed_forward,
        )[0]);
    }
}

proof fn lemma_attention_unique(left: AttentionPolicy, right: AttentionPolicy)
    requires
        attention_component(left) == attention_component(right),
    ensures
        left == right,
{
    lemma_literals();
    assert(left is Full ==> attention_component(left)[0] == 'f');
    assert(right is Full ==> attention_component(right)[0] == 'f');
    assert(left is Sliding ==> attention_component(left)[0] == 's');
    assert(right is Sliding ==> attention_component(right)[0] == 's');
    match (left, right) {
        (
            AttentionPolicy::Sliding { window: first },
            AttentionPolicy::Sliding { window: second },
        ) => {
            lemma_tagged_numeral_unique('s', first as nat, second as nat);
        },
        _ => {},
    }
}

proof fn lemma_state_unique(left: AttentionStateSource, right: AttentionStateSource)
    requires
        state_component(left) == state_component(right),
    ensures
        left == right,
{
    lemma_literals();
    assert(state_component(left).len() == state_component(right).len());
    assert(state_component(left)[0] == state_component(right)[0]);
    assert(state_component(left).last() == state_component(right).last());
}

proof fn lemma_component_free(policy: LayerPolicy)
    ensures
        free_of(policy.component(), ','),
        policy.component().len() > 0,
{
    lemma_component_shape(policy);
    lemma_parts_free(policy, ',');
}

proof fn lemma_join_front(parts: Seq<Seq<char>>, separator: Seq<char>)
    requires
        parts.len() >= 2,
    ensures
        joined(parts, separator) == parts[0] + separator + joined(
            parts.drop_first(),
            separator,
        ),
    decreases parts.len(),
{
    if parts.len() == 2 {
        reveal_with_fuel(joined, 3);
        assert(parts.drop_last() =~= seq![parts[0]]);
        assert(parts.drop_first() =~= seq![parts[1]]);
    } else {
        lemma_join_front(parts.drop_last(), separator);
        assert(parts.drop_last().drop_first() =~= parts.drop_first().drop_last());
        let inner = joined(parts.drop_first().drop_last(), separator);
        assert(joined(parts.drop_last(), separator) == parts[0] + separator + inner);
        assert(joined(parts.drop_first(), separator) == inner + separator + parts.last());
        assert(joined(parts, separator) =~= parts[0] + separator + (inner + separator
            + parts.last()));
    }
}

spec fn schedule_parts(schedule: Seq<LayerPolicy>) -> Seq<Seq<char>> {
    Seq::new(schedule.len(), |layer: int| schedule[layer].component())
}

/// A schedule text opens with its first component, closed by a comma where more follow.
proof fn lemma_schedule_front(schedule: Seq<LayerPolicy>)
    requires
        schedule.len() > 0,
    ensures
        schedule.len() == 1 ==> schedule_text(schedule) == schedule[0].component(),
        schedule.len() > 1 ==> schedule_text(schedule) == schedule[0].component() + seq![',']
            + schedule_text(schedule.drop_first()),
{
    lemma_literals();
    let parts = schedule_parts(schedule);
    if schedule.len() > 1 {
        lemma_join_front(parts, ","@);
        assert(parts.drop_first() =~= schedule_parts(schedule.drop_first()));
    }
}

/// Different schedules have different texts: the identity separates any two schedules.
pub proof fn law_identity_separates_schedules(left: Seq<LayerPolicy>, right: Seq<LayerPolicy>)
    requires
        schedule_text(left) == schedule_text(right),
    ensures
        left == right,
    decreases left.len(),
{
    if left.len() == 0 {
        if right.len() > 0 {
            lemma_schedule_front(right);
            lemma_component_free(right[0]);
        }
        assert(left =~= right);
    } else if right.len() == 0 {
        lemma_schedule_front(left);
        lemma_component_free(left[0]);
    } else {
        lemma_schedule_front(left);
        lemma_schedule_front(right);
        lemma_component_free(left[0]);
        lemma_component_free(right[0]);
        if left.len() == 1 && right.len() == 1 {
            law_components_identify_policies(left[0], right[0]);
            assert(left =~= right);
        } else if left.len() == 1 {
            assert(schedule_text(right)[right[0].component().len() as int] == ',');
        } else if right.len() == 1 {
            assert(schedule_text(left)[left[0].component().len() as int] == ',');
        } else {
            lemma_unique_split(
                left[0].component(),
                schedule_text(left.drop_first()),
                right[0].component(),
                schedule_text(right.drop_first()),
                ',',
            );
            law_components_identify_policies(left[0], right[0]);
            law_identity_separates_schedules(left.drop_first(), right.drop_first());
            assert(left =~= seq![left[0]] + left.drop_first());
            assert(right =~= seq![right[0]] + right.drop_first());
        }
    }
}

/// Configurations with different texts of their encodings, as a whole, in coverage, or for single
/// weights, differ in their identity.
pub proof fn law_identity_separates_encodings(
    left: ModelArgs,
    left_texts: FingerprintTexts,
    right: ModelArgs,
    right_texts: FingerprintTexts,
)
    requires
        left_texts.quantization@ != right_texts.quantization@
            || left_texts.quantized_weights@ != right_texts.quantized_weights@
            || left_texts.quantized_weight_configs@ != right_texts.quantized_weight_configs@,
    ensures
        fingerprint_fields(left, left_texts) != fingerprint_fields(right, right_texts),
{
    let fields = fingerprint_fields(left, left_texts);
    let others = fingerprint_fields(right, right_texts);
    assert(fields[7].1 == left_texts.quantization@ && others[7].1 == right_texts.quantization@);
    assert(fields[8].1 == left_texts.quantized_weights@ && others[8].1
        == right_texts.quantized_weights@);
    assert(fields[9].1 == left_texts.quantized_weight_configs@ && others[9].1
        == right_texts.quantized_weight_configs@);
}

} // verus!
