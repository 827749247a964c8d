//! Push rules: evaluating a user's rules against an event, in order, to
//! decide whether and how the user is notified.
use vstd::prelude::*;
use crate::error::owned;
use crate::numeric::{parse_u64, parse_u64_spec};
use crate::power_levels::{find_level, lookup};
use crate::text::{str_eq, contains, contains_seq, starts_with, is_prefix_of};

verus! {

/// A condition of a push rule. The value of `EventPropertyIs` is JSON text.
#[derive(Debug)]
pub enum PushCondition {
    EventMatch { key: String, pattern: String },
    ContainsDisplayName,
    RoomMemberCount { is: String },
    SenderNotificationPermission { key: String },
    EventPropertyContains { key: String, value: String },
    EventPropertyIs { key: String, value: String },
}

/// An action of a push rule. A tweak's value is JSON text.
#[derive(Debug)]
pub enum PushAction {
    Notify,
    DontNotify,
    Coalesce,
    SetTweak { set_tweak: String, value: String },
}

/// A push rule.
#[derive(Debug)]
pub struct PushRule {
    pub rule_id: String,
    pub priority_class: i32,
    pub priority: i32,
    pub conditions: Vec<PushCondition>,
    pub actions: Vec<PushAction>,
    pub default: bool,
    pub enabled: bool,
}

/// The outcome of evaluating push rules for an event.
#[derive(Debug)]
pub struct PushRuleEvaluation {
    pub should_notify: bool,
    pub actions: Vec<PushAction>,
    pub matched_rule: Option<String>,
}

/// What the rules know of the room: its member count, the user's display
/// name there, and the listed power levels (each user once).
#[derive(Debug)]
pub struct RoomContext {
    pub room_id: String,
    pub member_count: u64,
    pub user_display_name: Option<String>,
    pub power_levels: Vec<(String, i64)>,
}

/// A field of an event's content: absent, text, or some other JSON value.
#[derive(Debug)]
pub enum ContentField {
    Absent,
    Text(String),
    NonText,
}

/// The parts of an event that push rules read.
#[derive(Debug)]
pub struct PushEvent {
    pub event_id: String,
    pub event_type: String,
    pub sender: String,
    pub state_key: Option<String>,
    /// `content.body`.
    pub body: ContentField,
    /// `content.msgtype`.
    pub msgtype: ContentField,
    /// `content.url`, when it is text.
    pub url: Option<String>,
    /// `content["m.mentions"].user_ids`, when it is an array: each element's
    /// text, or `None` for a non-text element.
    pub mention_user_ids: Option<Vec<Option<String>>>,
    /// `content["m.mentions"].room`, as JSON text, when present.
    pub mention_room: Option<String>,
}

/// The field's text as `as_str().unwrap_or("")` reads it, when present.
pub open spec fn field_text(f: ContentField) -> Option<Seq<char>> {
    match f {
        ContentField::Absent => None,
        ContentField::Text(s) => Some(s@),
        ContentField::NonText => Some(Seq::empty()),
    }
}

pub open spec fn event_match(key: Seq<char>, pattern: Seq<char>, e: PushEvent) -> bool {
    if key == "type"@ {
        contains_seq(e.event_type@, pattern)
    } else if key == "content.msgtype"@ {
        match field_text(e.msgtype) {
            Some(t) => contains_seq(t, pattern),
            None => false,
        }
    } else if key == "content.body"@ {
        match field_text(e.body) {
            Some(t) => contains_seq(t, pattern),
            None => false,
        }
    } else {
        false
    }
}

pub open spec fn contains_display_name(e: PushEvent, c: RoomContext) -> bool {
    match (c.user_display_name, e.body) {
        (Some(name), ContentField::Text(body)) => contains_seq(body@, name@),
        _ => false,
    }
}

/// The `is` condition on the member count: `==n`, `>n` or `<n`, tried in
/// that order; anything else never matches.
pub open spec fn member_count_matches(is: Seq<char>, count: u64) -> bool {
    if is_prefix_of("=="@, is) && parse_u64_spec(is.subrange(2, is.len() as int)).is_some() {
        count == parse_u64_spec(is.subrange(2, is.len() as int)).unwrap()
    } else if is_prefix_of(">"@, is) && parse_u64_spec(is.subrange(1, is.len() as int)).is_some() {
        count > parse_u64_spec(is.subrange(1, is.len() as int)).unwrap()
    } else if is_prefix_of("<"@, is) && parse_u64_spec(is.subrange(1, is.len() as int)).is_some() {
        count < parse_u64_spec(is.subrange(1, is.len() as int)).unwrap()
    } else {
        false
    }
}

pub open spec fn sender_permission(key: Seq<char>, e: PushEvent, c: RoomContext) -> bool {
    match lookup(c.power_levels@, e.sender@) {
        Some(p) => p >= (if key == "room"@ { 50i64 } else { 0i64 }),
        None => false,
    }
}

pub open spec fn property_contains(key: Seq<char>, value: Seq<char>, e: PushEvent) -> bool {
    key == "content.m\\.mentions.user_ids"@ && match e.mention_user_ids {
        Some(ids) => exists|i: int|
            0 <= i < ids@.len() && (#[trigger] ids@[i]).is_some() && contains_seq(ids@[i].unwrap()@, value),
        None => false,
    }
}

pub open spec fn property_is(key: Seq<char>, value: Seq<char>, e: PushEvent) -> bool {
    key == "content.m\\.mentions.room"@ && match e.mention_room {
        Some(v) => v@ == value,
        None => false,
    }
}

/// Whether one condition holds for the event in the room.
pub open spec fn condition_holds(cond: PushCondition, e: PushEvent, c: RoomContext) -> bool {
    match cond {
        PushCondition::EventMatch { key, pattern } => event_match(key@, pattern@, e),
        PushCondition::ContainsDisplayName => contains_display_name(e, c),
        PushCondition::RoomMemberCount { is } => member_count_matches(is@, c.member_count),
        PushCondition::SenderNotificationPermission { key } => sender_permission(key@, e, c),
        PushCondition::EventPropertyContains { key, value } => property_contains(key@, value@, e),
        PushCondition::EventPropertyIs { key, value } => property_is(key@, value@, e),
    }
}

/// Whether all conditions hold (a rule without conditions always matches).
pub open spec fn conditions_hold(conds: Seq<PushCondition>, e: PushEvent, c: RoomContext) -> bool {
    forall|i: int| 0 <= i < conds.len() ==> condition_holds(#[trigger] conds[i], e, c)
}

/// Whether `rule` fires for the event: it is enabled and its conditions hold.
pub open spec fn rule_fires(rule: PushRule, e: PushEvent, c: RoomContext) -> bool {
    rule.enabled && conditions_hold(rule.conditions@, e, c)
}

/// The index of the first rule that fires, if any.
pub open spec fn first_firing(rules: Seq<PushRule>, e: PushEvent, c: RoomContext) -> Option<int>
    decreases rules.len(),
{
    if rules.len() == 0 {
        None
    } else if rule_fires(rules[0], e, c) {
        Some(0)
    } else {
        match first_firing(rules.drop_first(), e, c) {
            Some(i) => Some(i + 1),
            None => None,
        }
    }
}

pub proof fn lemma_first_firing(rules: Seq<PushRule>, e: PushEvent, c: RoomContext)
    ensures
        first_firing(rules, e, c) matches Some(i) ==> 0 <= i < rules.len() && rule_fires(rules[i], e, c)
            && forall|j: int| 0 <= j < i ==> !rule_fires(#[trigger] rules[j], e, c),
        first_firing(rules, e, c).is_none() ==> forall|j: int| 0 <= j < rules.len() ==> !rule_fires(#[trigger] rules[j], e, c),
    decreases rules.len(),
{
    if rules.len() > 0 && !rule_fires(rules[0], e, c) {
        lemma_first_firing(rules.drop_first(), e, c);
        assert forall|j: int| 0 < j < rules.len() implies rules[j] == rules.drop_first()[j - 1] by {}
    }
}

/// Whether an action is `Notify`.
pub open spec fn is_notify(a: PushAction) -> bool {
    a is Notify
}

fn evaluate_event_match(key: &str, pattern: &str, event: &PushEvent) -> (r: bool)
    ensures
        r == event_match(key@, pattern@, *event),
{
    if str_eq(key, "type") {
        contains(event.event_type.as_str(), pattern)
    } else if str_eq(key, "content.msgtype") {
        match &event.msgtype {
            ContentField::Absent => false,
            ContentField::Text(t) => contains(t.as_str(), pattern),
            ContentField::NonText => {
                proof { reveal_strlit(""); assert(""@ =~= Seq::<char>::empty()); }
                contains("", pattern)
            },
        }
    } else if str_eq(key, "content.body") {
        match &event.body {
            ContentField::Absent => false,
            ContentField::Text(t) => contains(t.as_str(), pattern),
            ContentField::NonText => {
                proof { reveal_strlit(""); assert(""@ =~= Seq::<char>::empty()); }
                contains("", pattern)
            },
        }
    } else {
        false
    }
}

fn evaluate_contains_display_name(event: &PushEvent, context: &RoomContext) -> (r: bool)
    ensures
        r == contains_display_name(*event, *context),
{
    match (&context.user_display_name, &event.body) {
        (Some(name), ContentField::Text(body)) => contains(body.as_str(), name.as_str()),
        _ => false,
    }
}

/// Push rules: the decisions of each operation are here; the handle `D` is
/// what the caller reads and writes the store with.
pub struct PushRepository<D> {
    db: D,
}

impl<D> PushRepository<D> {
    /// The store handle this repository was made with.
    pub closed spec fn handle(&self) -> D {
        self.db
    }

    pub fn new(db: D) -> (r: Self)
        ensures
            r.handle() == db,
    {
        PushRepository { db }
    }

    /// The store handle.
    pub fn db(&self) -> (r: &D)
        ensures
            *r == self.handle(),
    {
        &self.db
    }
}

impl<D> PushRepository<D> {
    /// Whether the room's member count meets the `is` condition (`==n`, `>n`,
    /// `<n`).
    pub fn evaluate_room_member_count(&self, is_condition: &str, context: &RoomContext) -> (r: bool)
        ensures
            r == member_count_matches(is_condition@, context.member_count),
    {
        let member_count = context.member_count;
        let n = is_condition.unicode_len();
        if starts_with(is_condition, "==") {
            proof { reveal_strlit("=="); }
            if let Some(num) = parse_u64(is_condition.substring_char(2, n)) {
                return member_count == num;
            }
        }
        if starts_with(is_condition, ">") {
            proof { reveal_strlit(">"); }
            if let Some(num) = parse_u64(is_condition.substring_char(1, n)) {
                return member_count > num;
            }
        }
        if starts_with(is_condition, "<") {
            proof { reveal_strlit("<"); }
            if let Some(num) = parse_u64(is_condition.substring_char(1, n)) {
                return member_count < num;
            }
        }
        false
    }
}

fn evaluate_sender_notification_permission(key: &str, event: &PushEvent, context: &RoomContext) -> (r: bool)
    ensures
        r == sender_permission(key@, *event, *context),
{
    match find_level(&context.power_levels, event.sender.as_str()) {
        Some(p) => {
            let required: i64 = if str_eq(key, "room") { 50 } else { 0 };
            p >= required
        },
        None => false,
    }
}

fn evaluate_event_property_contains(key: &str, value: &str, event: &PushEvent) -> (r: bool)
    ensures
        r == property_contains(key@, value@, *event),
{
    if !str_eq(key, "content.m\\.mentions.user_ids") {
        return false;
    }
    match &event.mention_user_ids {
        None => false,
        Some(ids) => {
            let mut i: usize = 0;
            while i < ids.len()
                invariant
                    i <= ids@.len(),
                    event.mention_user_ids == Some(*ids),
                    key@ == "content.m\\.mentions.user_ids"@,
                    forall|j: int| 0 <= j < i ==> !((#[trigger] ids@[j]).is_some() && contains_seq(ids@[j].unwrap()@, value@)),
                decreases ids@.len() - i,
            {
                if let Some(id) = &ids[i] {
                    if contains(id.as_str(), value) {
                        assert(ids@[i as int].is_some() && contains_seq(ids@[i as int].unwrap()@, value@));
                        return true;
                    }
                }
                i = i + 1;
            }
            false
        },
    }
}

fn evaluate_event_property_is(key: &str, value: &str, event: &PushEvent) -> (r: bool)
    ensures
        r == property_is(key@, value@, *event),
{
    if !str_eq(key, "content.m\\.mentions.room") {
        return false;
    }
    match &event.mention_room {
        Some(v) => str_eq(v.as_str(), value),
        None => false,
    }
}

impl<D> PushRepository<D> {
    /// Whether one condition holds for the event in the room.
    pub fn evaluate_condition(&self, condition: &PushCondition, event: &PushEvent, context: &RoomContext) -> (r: bool)
        ensures
            r == condition_holds(*condition, *event, *context),
    {
        match condition {
            PushCondition::EventMatch { key, pattern } => evaluate_event_match(key.as_str(), pattern.as_str(), event),
            PushCondition::ContainsDisplayName => evaluate_contains_display_name(event, context),
            PushCondition::RoomMemberCount { is } => self.evaluate_room_member_count(is.as_str(), context),
            PushCondition::SenderNotificationPermission { key } => evaluate_sender_notification_permission(key.as_str(), event, context),
            PushCondition::EventPropertyContains { key, value } => evaluate_event_property_contains(key.as_str(), value.as_str(), event),
            PushCondition::EventPropertyIs { key, value } => evaluate_event_property_is(key.as_str(), value.as_str(), event),
        }
    }
}

impl<D> PushRepository<D> {
    /// Whether all conditions hold.
    pub fn evaluate_conditions(&self, conditions: &Vec<PushCondition>, event: &PushEvent, context: &RoomContext) -> (r: bool)
        ensures
            r == conditions_hold(conditions@, *event, *context),
    {
        let mut i: usize = 0;
        while i < conditions.len()
            invariant
                i <= conditions@.len(),
                forall|j: int| 0 <= j < i ==> condition_holds(#[trigger] conditions@[j], *event, *context),
            decreases conditions@.len() - i,
        {
            if !self.evaluate_condition(&conditions[i], event, context) {
                return false;
            }
            i = i + 1;
        }
        true
    }
}

/// A copy of an action.
pub fn clone_action(a: &PushAction) -> (r: PushAction)
    ensures
        r == *a,
{
    match a {
        PushAction::Notify => PushAction::Notify,
        PushAction::DontNotify => PushAction::DontNotify,
        PushAction::Coalesce => PushAction::Coalesce,
        PushAction::SetTweak { set_tweak, value } => PushAction::SetTweak { set_tweak: set_tweak.clone(), value: value.clone() },
    }
}

/// A copy of a list of actions.
pub fn clone_actions(v: &Vec<PushAction>) -> (r: Vec<PushAction>)
    ensures
        r@ == v@,
{
    let mut r: Vec<PushAction> = Vec::new();
    let mut i: usize = 0;
    while i < v.len()
        invariant
            i <= v@.len(),
            r@ == v@.subrange(0, i as int),
        decreases v@.len() - i,
    {
        r.push(clone_action(&v[i]));
        i = i + 1;
    }
    assert(v@.subrange(0, v@.len() as int) =~= v@);
    r
}

/// Whether some action is `Notify`.
pub fn has_notify(actions: &Vec<PushAction>) -> (r: bool)
    ensures
        r == exists|i: int| 0 <= i < actions@.len() && is_notify(#[trigger] actions@[i]),
{
    let mut i: usize = 0;
    while i < actions.len()
        invariant
            i <= actions@.len(),
            forall|j: int| 0 <= j < i ==> !is_notify(#[trigger] actions@[j]),
        decreases actions@.len() - i,
    {
        if let PushAction::Notify = &actions[i] {
            return true;
        }
        i = i + 1;
    }
    false
}

/// What evaluating `rules` gives: the first rule that fires decides
/// (notify exactly when its actions hold `Notify`); when none fires, notify.
pub open spec fn evaluation_of(rules: Seq<PushRule>, e: PushEvent, c: RoomContext, r: PushRuleEvaluation) -> bool {
    match first_firing(rules, e, c) {
        Some(i) => {
            &&& r.actions@ == rules[i].actions@
            &&& r.should_notify == exists|k: int| 0 <= k < r.actions@.len() && is_notify(#[trigger] r.actions@[k])
            &&& r.matched_rule.is_some() && r.matched_rule.unwrap() == rules[i].rule_id
        },
        None => {
            &&& r.should_notify
            &&& r.actions@.len() == 1 && r.actions@[0] is Notify
            &&& r.matched_rule.is_none()
        },
    }
}

impl<D> PushRepository<D> {
    /// Evaluates `rules` in order against the event.
    pub fn evaluate_rules(&self, rules: &Vec<PushRule>, event: &PushEvent, context: &RoomContext) -> (r: PushRuleEvaluation)
        ensures
            evaluation_of(rules@, *event, *context, r),
    {
        let mut i: usize = 0;
        assert(rules@.subrange(0, rules@.len() as int) =~= rules@);
        while i < rules.len()
            invariant
                i <= rules@.len(),
                first_firing(rules@, *event, *context) == match first_firing(rules@.subrange(i as int, rules@.len() as int), *event, *context) {
                    Some(k) => Some(k + i),
                    None => None::<int>,
                },
            decreases rules@.len() - i,
        {
            let ghost rest = rules@.subrange(i as int, rules@.len() as int);
            assert(rest.drop_first() =~= rules@.subrange(i + 1, rules@.len() as int));
            let rule = &rules[i];
            if rule.enabled && self.evaluate_conditions(&rule.conditions, event, context) {
                let actions = clone_actions(&rule.actions);
                let should_notify = has_notify(&actions);
                return PushRuleEvaluation { should_notify, actions, matched_rule: Some(rule.rule_id.clone()) };
            }
            i = i + 1;
        }
        let mut actions: Vec<PushAction> = Vec::new();
        actions.push(PushAction::Notify);
        PushRuleEvaluation { should_notify: true, actions, matched_rule: None }
    }
}

impl<D> PushRepository<D> {
    /// Evaluates a user's push rules against an event: the user's own rules,
    /// or the default rules when the user has none.
    pub fn evaluate_push_rules(&self, user_rules: &Vec<PushRule>, event: &PushEvent, context: &RoomContext) -> (r: PushRuleEvaluation)
        ensures
            user_rules@.len() > 0 ==> evaluation_of(user_rules@, *event, *context, r),
            user_rules@.len() == 0 ==> exists|d: Seq<PushRule>| default_rules(d) && evaluation_of(d, *event, *context, r),
    {
        if user_rules.len() > 0 {
            self.evaluate_rules(user_rules, event, context)
        } else {
            let defaults = self.get_default_push_rules();
            self.evaluate_rules(&defaults, event, context)
        }
    }
}

/// `a` sets the tweak `name` to the JSON text `value`.
pub open spec fn is_tweak(a: PushAction, name: Seq<char>, value: Seq<char>) -> bool {
    a matches PushAction::SetTweak { set_tweak, value: v } && set_tweak@ == name && v@ == value
}

/// `r` has the id, class, priority and flags given.
pub open spec fn rule_head(r: PushRule, id: Seq<char>, class: i32, priority: i32, enabled: bool) -> bool {
    r.rule_id@ == id && r.priority_class == class && r.priority == priority && r.default && r.enabled == enabled
}

/// `c` matches the event type `t`.
pub open spec fn type_match(c: PushCondition, t: Seq<char>) -> bool {
    c matches PushCondition::EventMatch { key, pattern } && key@ == "type"@ && pattern@ == t
}

/// The server's default push rules: the (disabled) master rule, the
/// display-name rule (notify with the default sound and highlight), and the
/// message and member-event rules (notify).
pub open spec fn default_rules(d: Seq<PushRule>) -> bool {
    &&& d.len() == 4
    &&& rule_head(d[0], ".m.rule.master"@, 5, 0, false)
    &&& d[0].conditions@.len() == 0
    &&& d[0].actions@.len() == 1 && d[0].actions@[0] is DontNotify
    &&& rule_head(d[1], ".m.rule.contains_display_name"@, 4, 0, true)
    &&& d[1].conditions@.len() == 1 && d[1].conditions@[0] is ContainsDisplayName
    &&& d[1].actions@.len() == 3 && d[1].actions@[0] is Notify
    &&& is_tweak(d[1].actions@[1], "sound"@, "\"default\""@)
    &&& is_tweak(d[1].actions@[2], "highlight"@, "true"@)
    &&& rule_head(d[2], ".m.rule.message"@, 1, 0, true)
    &&& d[2].conditions@.len() == 1 && type_match(d[2].conditions@[0], "m.room.message"@)
    &&& d[2].actions@.len() == 1 && d[2].actions@[0] is Notify
    &&& rule_head(d[3], ".m.rule.member_event"@, 1, 10, true)
    &&& d[3].conditions@.len() == 1 && type_match(d[3].conditions@[0], "m.room.member"@)
    &&& d[3].actions@.len() == 1 && d[3].actions@[0] is Notify
}

impl<D> PushRepository<D> {
    /// The server's default push rules.
    pub fn get_default_push_rules(&self) -> (r: Vec<PushRule>)
        ensures
            default_rules(r@),
    {
        let mut master_actions = Vec::new();
        master_actions.push(PushAction::DontNotify);
        let master = PushRule {
            rule_id: owned(".m.rule.master"),
            priority_class: 5,
            priority: 0,
            conditions: Vec::new(),
            actions: master_actions,
            default: true,
            enabled: false,
        };
        let mut dn_conditions = Vec::new();
        dn_conditions.push(PushCondition::ContainsDisplayName);
        let mut dn_actions = Vec::new();
        dn_actions.push(PushAction::Notify);
        dn_actions.push(PushAction::SetTweak { set_tweak: owned("sound"), value: owned("\"default\"") });
        dn_actions.push(PushAction::SetTweak { set_tweak: owned("highlight"), value: owned("true") });
        let display_name = PushRule {
            rule_id: owned(".m.rule.contains_display_name"),
            priority_class: 4,
            priority: 0,
            conditions: dn_conditions,
            actions: dn_actions,
            default: true,
            enabled: true,
        };
        let mut msg_conditions = Vec::new();
        msg_conditions.push(PushCondition::EventMatch { key: owned("type"), pattern: owned("m.room.message") });
        let mut msg_actions = Vec::new();
        msg_actions.push(PushAction::Notify);
        let message = PushRule {
            rule_id: owned(".m.rule.message"),
            priority_class: 1,
            priority: 0,
            conditions: msg_conditions,
            actions: msg_actions,
            default: true,
            enabled: true,
        };
        let mut mem_conditions = Vec::new();
        mem_conditions.push(PushCondition::EventMatch { key: owned("type"), pattern: owned("m.room.member") });
        let mut mem_actions = Vec::new();
        mem_actions.push(PushAction::Notify);
        let member = PushRule {
            rule_id: owned(".m.rule.member_event"),
            priority_class: 1,
            priority: 10,
            conditions: mem_conditions,
            actions: mem_actions,
            default: true,
            enabled: true,
        };
        let mut rules = Vec::new();
        rules.push(master);
        rules.push(display_name);
        rules.push(message);
        rules.push(member);
        rules
    }
}

/// A disabled rule never decides an evaluation.
pub proof fn law_disabled_rule_never_fires(rule: PushRule, e: PushEvent, c: RoomContext)
    requires
        !rule.enabled,
    ensures
        !rule_fires(rule, e, c),
{
}

/// The rule that decides is the first that fires: every earlier rule is
/// disabled or has a failing condition.
pub proof fn law_first_firing_rule_decides(rules: Seq<PushRule>, e: PushEvent, c: RoomContext, r: PushRuleEvaluation)
    requires
        evaluation_of(rules, e, c, r),
        r.matched_rule.is_some(),
    ensures
        exists|i: int| 0 <= i < rules.len() && rule_fires(rules[i], e, c)
            && r.matched_rule.unwrap() == rules[i].rule_id
            && forall|j: int| 0 <= j < i ==> !rule_fires(#[trigger] rules[j], e, c),
{
    lemma_first_firing(rules, e, c);
}

/// When no rule fires, the user is notified.
pub proof fn law_no_firing_rule_notifies(rules: Seq<PushRule>, e: PushEvent, c: RoomContext, r: PushRuleEvaluation)
    requires
        evaluation_of(rules, e, c, r),
        forall|j: int| 0 <= j < rules.len() ==> !rule_fires(#[trigger] rules[j], e, c),
    ensures
        r.should_notify && r.matched_rule.is_none(),
{
    lemma_first_firing(rules, e, c);
    if first_firing(rules, e, c).is_some() {
        let i = first_firing(rules, e, c).unwrap();
        assert(rule_fires(rules[i], e, c));
    }
}


/// Notifying the whole room (`@room`, key `room`) takes a sender listed at
/// power level 50 or more; any other key takes a listed sender at level 0
/// or more; an unlisted sender never has the permission.
pub proof fn law_room_notification_needs_level_fifty(key: String, e: PushEvent, c: RoomContext)
    ensures
        key@ == "room"@ ==> (condition_holds(PushCondition::SenderNotificationPermission { key }, e, c) <==> (
            lookup(c.power_levels@, e.sender@) matches Some(p) && p >= 50)),
        key@ != "room"@ ==> (condition_holds(PushCondition::SenderNotificationPermission { key }, e, c) <==> (
            lookup(c.power_levels@, e.sender@) matches Some(p) && p >= 0)),
        lookup(c.power_levels@, e.sender@) is None ==> !condition_holds(
            PushCondition::SenderNotificationPermission { key },
            e,
            c,
        ),
{
}
} // verus!
