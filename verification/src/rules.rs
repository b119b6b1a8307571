//! Applying window rules to a window: the properties of every rule whose
//! matchers fit the window's app id and title, in the order of the rules.

use vstd::prelude::*;

use crate::config::{opt_text, WindowRule, WindowRuleView};
use crate::config_doc::Number;

verus! {

/// A window property that a rule sets.
#[derive(Clone, Copy, Debug, PartialEq, Eq, Structural)]
pub enum RuleProperty {
    Opacity(Number),
    Floating(bool),
    Blur(bool),
}

/// Whether a rule's matchers fit a window: each matcher the rule has must
/// equal the window's value.
pub open spec fn rule_matches(rule: WindowRuleView, app_id: Option<Seq<char>>, title: Option<Seq<char>>) -> bool {
    (rule.app_id is None || app_id == rule.app_id) && (rule.title is None || title == rule.title)
}

/// The properties one rule sets, in the order opacity, floating, blur.
pub open spec fn rule_properties(rule: WindowRuleView) -> Seq<RuleProperty> {
    let opacity = match rule.opacity {
        Some(o) => seq![RuleProperty::Opacity(o)],
        None => Seq::empty(),
    };
    let floating = match rule.floating {
        Some(f) => seq![RuleProperty::Floating(f)],
        None => Seq::empty(),
    };
    let blur = match rule.blur {
        Some(b) => seq![RuleProperty::Blur(b)],
        None => Seq::empty(),
    };
    opacity + floating + blur
}

/// The properties of the rules that match a window, rule after rule.
pub open spec fn matching_properties(rules: Seq<WindowRuleView>, app_id: Option<Seq<char>>, title: Option<Seq<char>>) -> Seq<
    RuleProperty,
>
    decreases rules.len(),
{
    if rules.len() == 0 {
        Seq::empty()
    } else {
        let earlier = matching_properties(rules.drop_last(), app_id, title);
        if rule_matches(rules.last(), app_id, title) {
            earlier + rule_properties(rules.last())
        } else {
            earlier
        }
    }
}

/// The views of a list of rules.
pub open spec fn rule_views(rules: Seq<WindowRule>) -> Seq<WindowRuleView> {
    rules.map_values(|r: WindowRule| r@)
}

/// The text of an optional string slice.
pub open spec fn opt_str(s: Option<&str>) -> Option<Seq<char>> {
    match s {
        Some(t) => Some(t@),
        None => None,
    }
}

fn text_matches(expected: &Option<String>, actual: Option<&str>) -> (r: bool)
    ensures
        r == (opt_text(*expected) is None || opt_str(actual) == opt_text(*expected)),
{
    match expected {
        None => true,
        Some(e) => match actual {
            None => false,
            Some(a) => crate::text::chars_equal(
                &crate::text::chars_of(e.as_str()),
                &crate::text::chars_of(a),
            ),
        },
    }
}

/// The properties of the rules that match a window with this app id and
/// title, in the order of the rules; each rule contributes its opacity,
/// floating and blur settings in that order.
pub fn matching_window_rule_properties(rules: &Vec<WindowRule>, app_id: Option<&str>, title: Option<&str>) -> (properties: Vec<
    RuleProperty,
>)
    ensures
        properties@ == matching_properties(rule_views(rules@), opt_str(app_id), opt_str(title)),
{
    let ghost views = rule_views(rules@);
    let mut properties: Vec<RuleProperty> = Vec::new();
    let mut i: usize = 0;
    while i < rules.len()
        invariant
            i <= rules@.len(),
            views == rule_views(rules@),
            properties@ == matching_properties(views.take(i as int), opt_str(app_id), opt_str(title)),
        decreases rules.len() - i,
    {
        assert(views.take(i as int + 1).drop_last() =~= views.take(i as int));
        assert(views.take(i as int + 1).last() == rules@[i as int]@);
        let rule = &rules[i];
        if text_matches(&rule.app_id, app_id) && text_matches(&rule.title, title) {
            let ghost before = properties@;
            match rule.opacity {
                Some(o) => properties.push(RuleProperty::Opacity(o)),
                None => {},
            }
            match rule.floating {
                Some(f) => properties.push(RuleProperty::Floating(f)),
                None => {},
            }
            match rule.blur {
                Some(b) => properties.push(RuleProperty::Blur(b)),
                None => {},
            }
            assert(properties@ =~= before + rule_properties(rule@));
        }
        i = i + 1;
    }
    assert(views.take(rules.len() as int) =~= views);
    properties
}

/// The properties a new window starts with: the configured default opacity,
/// then those of the matching rules.
pub fn configured_window_properties(
    default_opacity: Number,
    rules: &Vec<WindowRule>,
    app_id: Option<&str>,
    title: Option<&str>,
) -> (properties: Vec<RuleProperty>)
    ensures
        properties@ == seq![RuleProperty::Opacity(default_opacity)] + matching_properties(
            rule_views(rules@),
            opt_str(app_id),
            opt_str(title),
        ),
{
    let mut properties: Vec<RuleProperty> = Vec::new();
    properties.push(RuleProperty::Opacity(default_opacity));
    let mut matching = matching_window_rule_properties(rules, app_id, title);
    properties.append(&mut matching);
    properties
}

/// The opacity that applying `properties` in order leaves: the last opacity
/// among them, or `current` when there is none.
pub open spec fn final_opacity(properties: Seq<RuleProperty>, current: Number) -> Number
    decreases properties.len(),
{
    if properties.len() == 0 {
        current
    } else {
        match properties.last() {
            RuleProperty::Opacity(o) => o,
            _ => final_opacity(properties.drop_last(), current),
        }
    }
}

/// The opacity of the last rule among `rules` that matches and sets one.
pub open spec fn last_rule_opacity(rules: Seq<WindowRuleView>, app_id: Option<Seq<char>>, title: Option<Seq<char>>) -> Option<
    Number,
>
    decreases rules.len(),
{
    if rules.len() == 0 {
        None
    } else if rule_matches(rules.last(), app_id, title) && rules.last().opacity is Some {
        rules.last().opacity
    } else {
        last_rule_opacity(rules.drop_last(), app_id, title)
    }
}

proof fn lemma_final_opacity_append(a: Seq<RuleProperty>, b: Seq<RuleProperty>, current: Number)
    ensures
        final_opacity(a + b, current) == final_opacity(b, final_opacity(a, current)),
    decreases b.len(),
{
    if b.len() == 0 {
        assert(a + b =~= a);
    } else {
        assert((a + b).drop_last() =~= a + b.drop_last());
        assert((a + b).last() == b.last());
        lemma_final_opacity_append(a, b.drop_last(), current);
    }
}

proof fn lemma_rule_opacity(rule: WindowRuleView, current: Number)
    ensures
        final_opacity(rule_properties(rule), current) == match rule.opacity {
            Some(o) => o,
            None => current,
        },
{
    let opacity = match rule.opacity {
        Some(o) => seq![RuleProperty::Opacity(o)],
        None => Seq::<RuleProperty>::empty(),
    };
    let floating = match rule.floating {
        Some(f) => seq![RuleProperty::Floating(f)],
        None => Seq::<RuleProperty>::empty(),
    };
    let blur = match rule.blur {
        Some(b) => seq![RuleProperty::Blur(b)],
        None => Seq::<RuleProperty>::empty(),
    };
    lemma_final_opacity_append(opacity + floating, blur, current);
    lemma_final_opacity_append(opacity, floating, current);
    let after = final_opacity(opacity, current);
    if let Some(f) = rule.floating {
        assert(floating.drop_last() =~= Seq::<RuleProperty>::empty());
    }
    if let Some(b) = rule.blur {
        assert(blur.drop_last() =~= Seq::<RuleProperty>::empty());
    }
    if let Some(o) = rule.opacity {
        assert(opacity.drop_last() =~= Seq::<RuleProperty>::empty());
    }
    assert(final_opacity(floating, after) == after);
    assert(final_opacity(blur, after) == after);
}

/// A window's opacity after its configured properties are applied in order
/// is the opacity of the last matching rule that sets one, and the
/// configured default when no matching rule does.
pub proof fn lemma_matching_rule_overrides_default_opacity(
    default_opacity: Number,
    rules: Seq<WindowRuleView>,
    app_id: Option<Seq<char>>,
    title: Option<Seq<char>>,
)
    ensures
        final_opacity(seq![RuleProperty::Opacity(default_opacity)] + matching_properties(rules, app_id, title), default_opacity)
            == match last_rule_opacity(rules, app_id, title) {
            Some(o) => o,
            None => default_opacity,
        },
    decreases rules.len(),
{
    let start = seq![RuleProperty::Opacity(default_opacity)];
    if rules.len() == 0 {
        assert(start + matching_properties(rules, app_id, title) =~= start);
        assert(start.drop_last() =~= Seq::<RuleProperty>::empty());
    } else {
        lemma_matching_rule_overrides_default_opacity(default_opacity, rules.drop_last(), app_id, title);
        let earlier = matching_properties(rules.drop_last(), app_id, title);
        let before = final_opacity(start + earlier, default_opacity);
        if rule_matches(rules.last(), app_id, title) {
            assert(start + (earlier + rule_properties(rules.last())) =~= (start + earlier) + rule_properties(
                rules.last(),
            ));
            lemma_final_opacity_append(start + earlier, rule_properties(rules.last()), default_opacity);
            lemma_rule_opacity(rules.last(), before);
        }
    }
}


/// A rule added after the others adds its own properties after theirs when
/// each matcher it has equals the window's app id or title (a rule without
/// matchers fits every window), and adds nothing when one of them differs.
pub proof fn lemma_later_rule_contributes(
    rules: Seq<WindowRuleView>,
    rule: WindowRuleView,
    app_id: Option<Seq<char>>,
    title: Option<Seq<char>>,
)
    ensures
        (rule.app_id is None || rule.app_id == app_id) && (rule.title is None || rule.title == title)
            ==> matching_properties(rules.push(rule), app_id, title) == matching_properties(rules, app_id, title)
            + rule_properties(rule),
        (rule.app_id is Some && rule.app_id != app_id) || (rule.title is Some && rule.title != title)
            ==> matching_properties(rules.push(rule), app_id, title) == matching_properties(rules, app_id, title),
        rule.app_id is None && rule.title is None ==> matching_properties(rules.push(rule), app_id, title)
            == matching_properties(rules, app_id, title) + rule_properties(rule),
{
    assert(rules.push(rule).drop_last() =~= rules);
    assert(rules.push(rule).last() == rule);
}

} // verus!
