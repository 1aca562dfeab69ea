//! Saved shortcuts, reduced to what has to be sent to which device.

use vstd::prelude::*;
use vstd::string::StringExecFns;
use serde_json::Value as JsonValue;
use crate::client::GoveeUndocumentedApi;
use crate::responses::{OneClick, OneClickComponent, OneClickIotRule, OneClickIotRuleEntry};

verus! {

/// A shortcut: its name and what it sends.
#[derive(Debug, Clone)]
pub struct ParsedOneClick {
    pub name: String,
    pub entries: Vec<ParsedOneClickEntry>,
}

/// What a shortcut sends to one device.
#[derive(Debug, Clone)]
pub struct ParsedOneClickEntry {
    pub topic: String,
    pub device: String,
    pub msgs: Vec<JsonValue>,
}

/// The mathematical content of a [`ParsedOneClickEntry`].
pub struct ParsedOneClickEntryView {
    pub topic: Seq<char>,
    pub device: Seq<char>,
    pub msgs: Seq<JsonValue>,
}

/// The mathematical content of a [`ParsedOneClick`].
pub struct ParsedOneClickView {
    pub name: Seq<char>,
    pub entries: Seq<ParsedOneClickEntryView>,
}

impl View for ParsedOneClickEntry {
    type V = ParsedOneClickEntryView;

    open spec fn view(&self) -> ParsedOneClickEntryView {
        ParsedOneClickEntryView { topic: self.topic@, device: self.device@, msgs: self.msgs@ }
    }
}

/// The views of `entries`, in order.
pub open spec fn entry_views(entries: Seq<ParsedOneClickEntry>) -> Seq<ParsedOneClickEntryView> {
    Seq::new(entries.len(), |i: int| entries[i]@)
}

impl View for ParsedOneClick {
    type V = ParsedOneClickView;

    open spec fn view(&self) -> ParsedOneClickView {
        ParsedOneClickView { name: self.name@, entries: entry_views(self.entries@) }
    }
}

/// The views of `shortcuts`, in order.
pub open spec fn shortcut_views(shortcuts: Seq<ParsedOneClick>) -> Seq<ParsedOneClickView> {
    Seq::new(shortcuts.len(), |i: int| shortcuts[i]@)
}

/// The messages of the steps of a rule, in order.
pub open spec fn messages_of(steps: Seq<OneClickIotRuleEntry>) -> Seq<JsonValue> {
    Seq::new(steps.len(), |i: int| steps[i].iot_msg)
}

/// What a rule sends: the messages of its steps, to its device on its topic.
pub open spec fn entry_of(rule: OneClickIotRule) -> ParsedOneClickEntryView {
    ParsedOneClickEntryView {
        topic: rule.device_obj.topic@,
        device: rule.device_obj.device@,
        msgs: messages_of(rule.rule@),
    }
}

/// What each of `rules` sends, in order.
pub open spec fn entries_of(rules: Seq<OneClickIotRule>) -> Seq<ParsedOneClickEntryView> {
    Seq::new(rules.len(), |i: int| entry_of(rules[i]))
}

/// The name under which the shortcut `name` of the group `group` is shown.
pub open spec fn shortcut_name(group: Seq<char>, name: Seq<char>) -> Seq<char> {
    "One-Click: "@ + group + ": "@ + name
}

/// The shortcut `one_click` of the group named `group`.
pub open spec fn shortcut_of(group: Seq<char>, one_click: OneClick) -> ParsedOneClickView {
    ParsedOneClickView {
        name: shortcut_name(group, one_click.name@),
        entries: entries_of(one_click.iot_rules@),
    }
}

/// The shortcut that a one-click of the group named `group` becomes, if it
/// has a rule.
pub open spec fn shortcut_if_any(group: Seq<char>) -> spec_fn(OneClick) -> Option<
    ParsedOneClickView,
> {
    |one_click: OneClick|
        if one_click.iot_rules@.len() == 0 {
            None
        } else {
            Some(shortcut_of(group, one_click))
        }
}

/// The shortcuts of a group: one for each of its one-clicks that has a rule,
/// in order.
pub open spec fn shortcuts_of_group(group: OneClickComponent) -> Seq<ParsedOneClickView> {
    group.one_clicks@.filter_map(shortcut_if_any(group.name@))
}

/// [`shortcuts_of_group`] as a function value.
pub open spec fn group_shortcuts() -> spec_fn(OneClickComponent) -> Seq<ParsedOneClickView> {
    |group: OneClickComponent| shortcuts_of_group(group)
}

/// The shortcuts of `groups`, group after group.
pub open spec fn shortcuts_of(groups: Seq<OneClickComponent>) -> Seq<ParsedOneClickView> {
    groups.flat_map(group_shortcuts())
}

fn copy_messages(steps: &Vec<OneClickIotRuleEntry>) -> (msgs: Vec<JsonValue>)
    ensures
        msgs@ == messages_of(steps@),
{
    let mut msgs: Vec<JsonValue> = Vec::new();
    let mut i: usize = 0;
    while i < steps.len()
        invariant
            i <= steps.len(),
            msgs@.len() == i,
            forall|j: int| 0 <= j < i ==> msgs@[j] == steps@[j].iot_msg,
        decreases steps.len() - i,
    {
        msgs.push(steps[i].iot_msg.clone());
        i += 1;
    }
    assert(msgs@ =~= messages_of(steps@));
    msgs
}

fn parse_rules(rules: &Vec<OneClickIotRule>) -> (entries: Vec<ParsedOneClickEntry>)
    ensures
        entry_views(entries@) == entries_of(rules@),
{
    let mut entries: Vec<ParsedOneClickEntry> = Vec::new();
    let mut i: usize = 0;
    while i < rules.len()
        invariant
            i <= rules.len(),
            entries@.len() == i,
            forall|j: int| 0 <= j < i ==> (#[trigger] entries@[j])@ == entry_of(rules@[j]),
        decreases rules.len() - i,
    {
        let rule = &rules[i];
        entries.push(
            ParsedOneClickEntry {
                topic: rule.device_obj.topic.clone(),
                device: rule.device_obj.device.clone(),
                msgs: copy_messages(&rule.rule),
            },
        );
        i += 1;
    }
    assert(entry_views(entries@) =~= entries_of(rules@));
    entries
}

impl GoveeUndocumentedApi {
    /// Reduces the saved shortcuts to what each of them sends: one shortcut
    /// for every one-click of every group that has a rule, in the order of
    /// the groups and of their one-clicks, named after both.
    pub fn parse_one_clicks(components: &Vec<OneClickComponent>) -> (result: Vec<ParsedOneClick>)
        ensures
            shortcut_views(result@) == shortcuts_of(components@),
    {
        let mut result: Vec<ParsedOneClick> = Vec::new();
        let mut g: usize = 0;
        assert(shortcut_views(result@) =~= shortcuts_of(components@.take(0)));
        while g < components.len()
            invariant
                g <= components.len(),
                shortcut_views(result@) == shortcuts_of(components@.take(g as int)),
            decreases components.len() - g,
        {
            let group = &components[g];
            let ghost base = shortcut_views(result@);
            let ghost pick = shortcut_if_any(group.name@);
            let mut c: usize = 0;
            assert(shortcut_views(result@) =~= base + group.one_clicks@.take(0).filter_map(pick));
            while c < group.one_clicks.len()
                invariant
                    c <= group.one_clicks.len(),
                    pick == shortcut_if_any(group.name@),
                    shortcut_views(result@) == base + group.one_clicks@.take(c as int).filter_map(
                        pick,
                    ),
                decreases group.one_clicks.len() - c,
            {
                let one_click = &group.one_clicks[c];
                let ghost had = result@;
                proof {
                    group.one_clicks@.lemma_filter_map_take_succ(pick, c as int);
                }
                if one_click.iot_rules.len() > 0 {
                    let name = String::from_str("One-Click: ").concat(group.name.as_str()).concat(
                        ": ",
                    ).concat(one_click.name.as_str());
                    let parsed = ParsedOneClick { name, entries: parse_rules(&one_click.iot_rules) };
                    assert(parsed@ == shortcut_of(group.name@, *one_click));
                    result.push(parsed);
                    assert(shortcut_views(result@) =~= shortcut_views(had).push(parsed@));
                }
                assert(shortcut_views(result@) =~= base + group.one_clicks@.take(c + 1).filter_map(
                    pick,
                ));
                c += 1;
            }
            proof {
                assert(group.one_clicks@.take(c as int) =~= group.one_clicks@);
                components@.lemma_flat_map_take_append(group_shortcuts(), g as int);
            }
            g += 1;
        }
        assert(components@.take(g as int) =~= components@);
        result
    }
}

} // verus!
