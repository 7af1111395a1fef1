//! The three-tier store of custom block policies.
//!
//! A policy can be set for one named block under one language, as a default
//! for one language, or as a document-wide default.  The three tiers are
//! stored independently and precedence — block name over language default
//! over document-wide default — is resolved at lookup time, so the order in
//! which the raw keys appeared cannot change a lookup's result.

use crate::options::CustomBlockPolicy;
use crate::options::LangScope;
use crate::text::str_eq;
use vstd::prelude::*;

verus! {

/// Policy for one named block under one language.
pub struct BlockRule {
    pub lang: LangScope,
    pub block: String,
    pub policy: CustomBlockPolicy,
}

/// View of a [`BlockRule`].
pub struct BlockRuleView {
    pub lang: LangScope,
    pub block: Seq<char>,
    pub policy: CustomBlockPolicy,
}

impl View for BlockRule {
    type V = BlockRuleView;

    open spec fn view(&self) -> BlockRuleView {
        BlockRuleView { lang: self.lang, block: self.block@, policy: self.policy }
    }
}

impl DeepView for BlockRule {
    type V = BlockRuleView;

    open spec fn deep_view(&self) -> BlockRuleView {
        self@
    }
}

/// The policy of the last rule for `lang` and `block`, if any rule names
/// them.
pub open spec fn rule_policy(
    rules: Seq<BlockRuleView>,
    lang: LangScope,
    block: Seq<char>,
) -> Option<CustomBlockPolicy>
    decreases rules.len(),
{
    if rules.len() == 0 {
        None
    } else if rules.last().lang == lang && rules.last().block == block {
        Some(rules.last().policy)
    } else {
        rule_policy(rules.drop_last(), lang, block)
    }
}

/// View of a [`CustomBlockStore`].
#[verifier::ext_equal]
pub struct CustomBlockStoreView {
    pub base_default: Option<CustomBlockPolicy>,
    pub vue_default: Option<CustomBlockPolicy>,
    pub svelte_default: Option<CustomBlockPolicy>,
    pub astro_default: Option<CustomBlockPolicy>,
    pub html_default: Option<CustomBlockPolicy>,
    pub rules: Seq<BlockRuleView>,
}

impl CustomBlockStoreView {
    /// The per-language default tier.
    pub open spec fn lang_default(self, lang: LangScope) -> Option<CustomBlockPolicy> {
        match lang {
            LangScope::Vue => self.vue_default,
            LangScope::Svelte => self.svelte_default,
            LangScope::Astro => self.astro_default,
            LangScope::Html => self.html_default,
        }
    }

    /// The resolved policy for a block: the most specific configured tier
    /// wins, and a store with no applicable tier yields
    /// [`CustomBlockPolicy::LangAttribute`].
    pub open spec fn lookup(self, lang: LangScope, block: Seq<char>) -> CustomBlockPolicy {
        match rule_policy(self.rules, lang, block) {
            Some(p) => p,
            None => match self.lang_default(lang) {
                Some(p) => p,
                None => match self.base_default {
                    Some(p) => p,
                    None => CustomBlockPolicy::LangAttribute,
                },
            },
        }
    }
}

/// The three tiers of custom block policies, stored independently.
pub struct CustomBlockStore {
    pub base_default: Option<CustomBlockPolicy>,
    pub vue_default: Option<CustomBlockPolicy>,
    pub svelte_default: Option<CustomBlockPolicy>,
    pub astro_default: Option<CustomBlockPolicy>,
    pub html_default: Option<CustomBlockPolicy>,
    pub rules: Vec<BlockRule>,
}

impl View for CustomBlockStore {
    type V = CustomBlockStoreView;

    open spec fn view(&self) -> CustomBlockStoreView {
        CustomBlockStoreView {
            base_default: self.base_default,
            vue_default: self.vue_default,
            svelte_default: self.svelte_default,
            astro_default: self.astro_default,
            html_default: self.html_default,
            rules: self.rules.deep_view(),
        }
    }
}

impl CustomBlockStore {
    /// A store with nothing configured.
    pub fn new() -> (r: CustomBlockStore)
        ensures
            r@ == (CustomBlockStoreView {
                base_default: None,
                vue_default: None,
                svelte_default: None,
                astro_default: None,
                html_default: None,
                rules: Seq::<BlockRuleView>::empty(),
            }),
    {
        let r = CustomBlockStore {
            base_default: None,
            vue_default: None,
            svelte_default: None,
            astro_default: None,
            html_default: None,
            rules: Vec::new(),
        };
        proof {
            assert(r@.rules =~= Seq::<BlockRuleView>::empty());
        }
        r
    }

    /// The policy for block `block` under language `lang`.  Every lookup
    /// returns a policy; a store with no applicable tier falls back to
    /// [`CustomBlockPolicy::LangAttribute`].
    pub fn get(&self, lang: LangScope, block: &str) -> (p: CustomBlockPolicy)
        ensures
            p == self@.lookup(lang, block@),
    {
        let n = self.rules.len();
        let mut k: usize = n;
        proof {
            assert(self@.rules.subrange(0, n as int) =~= self@.rules);
        }
        while k > 0
        invariant
            k <= n,
            n == self.rules.len(),
            rule_policy(self@.rules, lang, block@) == rule_policy(
                self@.rules.subrange(0, k as int),
                lang,
                block@,
            ),
        decreases k,
        {
            let rule = &self.rules[k - 1];
            proof {
                let pre = self@.rules.subrange(0, k as int);
                assert(pre.drop_last() =~= self@.rules.subrange(0, k - 1));
                assert(pre.last() == rule@);
            }
            if rule.lang == lang && str_eq(rule.block.as_str(), block) {
                return rule.policy;
            }
            k -= 1;
        }
        proof {
            assert(self@.rules.subrange(0, 0) =~= Seq::<BlockRuleView>::empty());
        }
        match self.lang_default_of(lang) {
            Some(p) => p,
            None => match self.base_default {
                Some(p) => p,
                None => CustomBlockPolicy::LangAttribute,
            },
        }
    }

    /// The per-language default tier.
    fn lang_default_of(&self, lang: LangScope) -> (r: Option<CustomBlockPolicy>)
        ensures
            r == self@.lang_default(lang),
    {
        match lang {
            LangScope::Vue => self.vue_default,
            LangScope::Svelte => self.svelte_default,
            LangScope::Astro => self.astro_default,
            LangScope::Html => self.html_default,
        }
    }
}

} // verus!
