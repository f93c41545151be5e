//! The names by which documents call platforms, types, policies and kinds.
use vstd::prelude::*;
use crate::definition::{BackoffPolicy, OnErrorPolicy, Platform, VariableType};
use crate::fields::{defaulted, required};
use crate::text::same_text;
use crate::value::{entry_trees, find_entry, Json, Tree};

verus! {

/// The name by which a document calls a platform.
pub open spec fn platform_name(v: Platform) -> Seq<char> {
    match v {
        Platform::Windows => "windows"@,
        Platform::MacOs => "mac-os"@,
        Platform::Linux => "linux"@,
    }
}

pub open spec fn platform_named(name: Seq<char>) -> Option<Platform> {
    if name == "windows"@ {
        Some(Platform::Windows)
    } else if name == "mac-os"@ {
        Some(Platform::MacOs)
    } else if name == "linux"@ {
        Some(Platform::Linux)
    } else {
        None
    }
}

pub open spec fn platform_of(tree: Tree) -> Option<Platform> {
    match tree {
        Tree::Text(name) => platform_named(name),
        _ => None,
    }
}

pub(crate) proof fn platform_round_trip(v: Platform)
    ensures
        platform_named(platform_name(v)) == Some(v),
{
    reveal_strlit("windows");
    reveal_strlit("mac-os");
    reveal_strlit("linux");
    assert("windows"@.len() == 7);
    assert("mac-os"@.len() == 6);
    assert("linux"@.len() == 5);
}

/// The name by which a document calls a platform.
pub fn platform_text(v: Platform) -> (r: &'static str)
    ensures
        r@ == platform_name(v),
{
    match v {
        Platform::Windows => "windows",
        Platform::MacOs => "mac-os",
        Platform::Linux => "linux",
    }
}

pub fn platform_from(name: &str) -> (r: Option<Platform>)
    ensures
        r == platform_named(name@),
{
    if same_text(name, "windows") {
        Some(Platform::Windows)
    } else if same_text(name, "mac-os") {
        Some(Platform::MacOs)
    } else if same_text(name, "linux") {
        Some(Platform::Linux)
    } else {
        None
    }
}

fn decode_platform(value: &Json) -> (r: Option<Platform>)
    ensures
        r == platform_of(value@),
{
    match value {
        Json::String(name) => platform_from(name.as_str()),
        _ => None,
    }
}

/// The name by which a document calls a variable type.
pub open spec fn variable_type_name(v: VariableType) -> Seq<char> {
    match v {
        VariableType::String => "string"@,
        VariableType::Boolean => "boolean"@,
        VariableType::Number => "number"@,
        VariableType::Json => "json"@,
    }
}

pub open spec fn variable_type_named(name: Seq<char>) -> Option<VariableType> {
    if name == "string"@ {
        Some(VariableType::String)
    } else if name == "boolean"@ {
        Some(VariableType::Boolean)
    } else if name == "number"@ {
        Some(VariableType::Number)
    } else if name == "json"@ {
        Some(VariableType::Json)
    } else {
        None
    }
}

pub open spec fn variable_type_of(tree: Tree) -> Option<VariableType> {
    match tree {
        Tree::Text(name) => variable_type_named(name),
        _ => None,
    }
}

pub(crate) proof fn variable_type_round_trip(v: VariableType)
    ensures
        variable_type_named(variable_type_name(v)) == Some(v),
{
    reveal_strlit("string");
    reveal_strlit("boolean");
    reveal_strlit("number");
    reveal_strlit("json");
    assert("string"@.len() == 6);
    assert("boolean"@.len() == 7);
    assert("number"@.len() == 6);
    assert("json"@.len() == 4);
    assert("string"@[0] != "number"@[0]);
}

/// The name by which a document calls a variable type.
pub fn variable_type_text(v: VariableType) -> (r: &'static str)
    ensures
        r@ == variable_type_name(v),
{
    match v {
        VariableType::String => "string",
        VariableType::Boolean => "boolean",
        VariableType::Number => "number",
        VariableType::Json => "json",
    }
}

pub fn variable_type_from(name: &str) -> (r: Option<VariableType>)
    ensures
        r == variable_type_named(name@),
{
    if same_text(name, "string") {
        Some(VariableType::String)
    } else if same_text(name, "boolean") {
        Some(VariableType::Boolean)
    } else if same_text(name, "number") {
        Some(VariableType::Number)
    } else if same_text(name, "json") {
        Some(VariableType::Json)
    } else {
        None
    }
}

fn decode_variable_type(value: &Json) -> (r: Option<VariableType>)
    ensures
        r == variable_type_of(value@),
{
    match value {
        Json::String(name) => variable_type_from(name.as_str()),
        _ => None,
    }
}

/// The name by which a document calls a backoff policy.
pub open spec fn backoff_name(v: BackoffPolicy) -> Seq<char> {
    match v {
        BackoffPolicy::Constant => "none"@,
        BackoffPolicy::Linear => "linear"@,
        BackoffPolicy::Exponential => "exponential"@,
    }
}

pub open spec fn backoff_named(name: Seq<char>) -> Option<BackoffPolicy> {
    if name == "none"@ {
        Some(BackoffPolicy::Constant)
    } else if name == "linear"@ {
        Some(BackoffPolicy::Linear)
    } else if name == "exponential"@ {
        Some(BackoffPolicy::Exponential)
    } else {
        None
    }
}

pub open spec fn backoff_of(tree: Tree) -> Option<BackoffPolicy> {
    match tree {
        Tree::Text(name) => backoff_named(name),
        _ => None,
    }
}

pub(crate) proof fn backoff_round_trip(v: BackoffPolicy)
    ensures
        backoff_named(backoff_name(v)) == Some(v),
{
    reveal_strlit("none");
    reveal_strlit("linear");
    reveal_strlit("exponential");
    assert("none"@.len() == 4);
    assert("linear"@.len() == 6);
    assert("exponential"@.len() == 11);
}

/// The name by which a document calls a backoff policy.
pub fn backoff_text(v: BackoffPolicy) -> (r: &'static str)
    ensures
        r@ == backoff_name(v),
{
    match v {
        BackoffPolicy::Constant => "none",
        BackoffPolicy::Linear => "linear",
        BackoffPolicy::Exponential => "exponential",
    }
}

pub fn backoff_from(name: &str) -> (r: Option<BackoffPolicy>)
    ensures
        r == backoff_named(name@),
{
    if same_text(name, "none") {
        Some(BackoffPolicy::Constant)
    } else if same_text(name, "linear") {
        Some(BackoffPolicy::Linear)
    } else if same_text(name, "exponential") {
        Some(BackoffPolicy::Exponential)
    } else {
        None
    }
}

fn decode_backoff(value: &Json) -> (r: Option<BackoffPolicy>)
    ensures
        r == backoff_of(value@),
{
    match value {
        Json::String(name) => backoff_from(name.as_str()),
        _ => None,
    }
}

/// The name by which a document calls what follows a failure.
pub open spec fn on_error_name(v: OnErrorPolicy) -> Seq<char> {
    match v {
        OnErrorPolicy::Stop => "stop"@,
        OnErrorPolicy::Continue => "continue"@,
        OnErrorPolicy::Prompt => "prompt"@,
    }
}

pub open spec fn on_error_named(name: Seq<char>) -> Option<OnErrorPolicy> {
    if name == "stop"@ {
        Some(OnErrorPolicy::Stop)
    } else if name == "continue"@ {
        Some(OnErrorPolicy::Continue)
    } else if name == "prompt"@ {
        Some(OnErrorPolicy::Prompt)
    } else {
        None
    }
}

pub open spec fn on_error_of(tree: Tree) -> Option<OnErrorPolicy> {
    match tree {
        Tree::Text(name) => on_error_named(name),
        _ => None,
    }
}

pub(crate) proof fn on_error_round_trip(v: OnErrorPolicy)
    ensures
        on_error_named(on_error_name(v)) == Some(v),
{
    reveal_strlit("stop");
    reveal_strlit("continue");
    reveal_strlit("prompt");
    assert("stop"@.len() == 4);
    assert("continue"@.len() == 8);
    assert("prompt"@.len() == 6);
}

/// The name by which a document calls what follows a failure.
pub fn on_error_text(v: OnErrorPolicy) -> (r: &'static str)
    ensures
        r@ == on_error_name(v),
{
    match v {
        OnErrorPolicy::Stop => "stop",
        OnErrorPolicy::Continue => "continue",
        OnErrorPolicy::Prompt => "prompt",
    }
}

pub fn on_error_from(name: &str) -> (r: Option<OnErrorPolicy>)
    ensures
        r == on_error_named(name@),
{
    if same_text(name, "stop") {
        Some(OnErrorPolicy::Stop)
    } else if same_text(name, "continue") {
        Some(OnErrorPolicy::Continue)
    } else if same_text(name, "prompt") {
        Some(OnErrorPolicy::Prompt)
    } else {
        None
    }
}

fn decode_on_error(value: &Json) -> (r: Option<OnErrorPolicy>)
    ensures
        r == on_error_of(value@),
{
    match value {
        Json::String(name) => on_error_from(name.as_str()),
        _ => None,
    }
}

pub open spec fn def_backoff_at(
    entries: Seq<(Seq<char>, Tree)>,
    key: Seq<char>,
) -> Option<BackoffPolicy> {
    defaulted(entries, key, |t: Tree| backoff_of(t), BackoffPolicy::Constant)
}

pub(crate) fn read_def_backoff_at(
    entries: &Vec<(String, Json)>,
    key: &str,
) -> (r: Option<BackoffPolicy>)
    ensures
        match r {
            Some(x) => def_backoff_at(entry_trees(entries@), key@) == Some(x),
            None => def_backoff_at(entry_trees(entries@), key@) is None,
        },
{
    match find_entry(entries, key) {
        None => {
            Some(BackoffPolicy::Constant)
        },
        Some(value) => decode_backoff(value),
    }
}

/// The kinds of conditions.
#[derive(Debug, Clone, Copy, PartialEq, Eq, Structural)]
pub enum ConditionKind {
    Duration,
    WindowExists,
    WindowFocused,
    TargetExists,
    TargetNotExists,
    TargetFocused,
    TargetEnabled,
    TargetVisible,
    TargetActionable,
    TargetNameContains,
    TargetValueContains,
    ProcessRunning,
    FileExists,
    CommandExits,
}

/// The kinds of conditions.
pub open spec fn condition_kind_name(v: ConditionKind) -> Seq<char> {
    match v {
        ConditionKind::Duration => "duration"@,
        ConditionKind::WindowExists => "windowExists"@,
        ConditionKind::WindowFocused => "windowFocused"@,
        ConditionKind::TargetExists => "targetExists"@,
        ConditionKind::TargetNotExists => "targetNotExists"@,
        ConditionKind::TargetFocused => "targetFocused"@,
        ConditionKind::TargetEnabled => "targetEnabled"@,
        ConditionKind::TargetVisible => "targetVisible"@,
        ConditionKind::TargetActionable => "targetActionable"@,
        ConditionKind::TargetNameContains => "targetNameContains"@,
        ConditionKind::TargetValueContains => "targetValueContains"@,
        ConditionKind::ProcessRunning => "processRunning"@,
        ConditionKind::FileExists => "fileExists"@,
        ConditionKind::CommandExits => "commandExits"@,
    }
}

pub open spec fn condition_kind_named(name: Seq<char>) -> Option<ConditionKind> {
    if name == "duration"@ {
        Some(ConditionKind::Duration)
    } else if name == "windowExists"@ {
        Some(ConditionKind::WindowExists)
    } else if name == "windowFocused"@ {
        Some(ConditionKind::WindowFocused)
    } else if name == "targetExists"@ {
        Some(ConditionKind::TargetExists)
    } else if name == "targetNotExists"@ {
        Some(ConditionKind::TargetNotExists)
    } else if name == "targetFocused"@ {
        Some(ConditionKind::TargetFocused)
    } else if name == "targetEnabled"@ {
        Some(ConditionKind::TargetEnabled)
    } else if name == "targetVisible"@ {
        Some(ConditionKind::TargetVisible)
    } else if name == "targetActionable"@ {
        Some(ConditionKind::TargetActionable)
    } else if name == "targetNameContains"@ {
        Some(ConditionKind::TargetNameContains)
    } else if name == "targetValueContains"@ {
        Some(ConditionKind::TargetValueContains)
    } else if name == "processRunning"@ {
        Some(ConditionKind::ProcessRunning)
    } else if name == "fileExists"@ {
        Some(ConditionKind::FileExists)
    } else if name == "commandExits"@ {
        Some(ConditionKind::CommandExits)
    } else {
        None
    }
}

pub open spec fn condition_kind_of(tree: Tree) -> Option<ConditionKind> {
    match tree {
        Tree::Text(name) => condition_kind_named(name),
        _ => None,
    }
}

pub(crate) proof fn condition_kind_round_trip(v: ConditionKind)
    ensures
        condition_kind_named(condition_kind_name(v)) == Some(v),
{
    reveal_strlit("duration");
    reveal_strlit("windowExists");
    reveal_strlit("windowFocused");
    reveal_strlit("targetExists");
    reveal_strlit("targetNotExists");
    reveal_strlit("targetFocused");
    reveal_strlit("targetEnabled");
    reveal_strlit("targetVisible");
    reveal_strlit("targetActionable");
    reveal_strlit("targetNameContains");
    reveal_strlit("targetValueContains");
    reveal_strlit("processRunning");
    reveal_strlit("fileExists");
    reveal_strlit("commandExits");
    assert("duration"@.len() == 8);
    assert("windowExists"@.len() == 12);
    assert("windowFocused"@.len() == 13);
    assert("targetExists"@.len() == 12);
    assert("targetNotExists"@.len() == 15);
    assert("targetFocused"@.len() == 13);
    assert("targetEnabled"@.len() == 13);
    assert("targetVisible"@.len() == 13);
    assert("targetActionable"@.len() == 16);
    assert("targetNameContains"@.len() == 18);
    assert("targetValueContains"@.len() == 19);
    assert("processRunning"@.len() == 14);
    assert("fileExists"@.len() == 10);
    assert("commandExits"@.len() == 12);
    assert("windowExists"@[0] != "targetExists"@[0]);
    assert("windowExists"@[0] != "commandExits"@[0]);
    assert("windowFocused"@[0] != "targetFocused"@[0]);
    assert("windowFocused"@[0] != "targetEnabled"@[0]);
    assert("windowFocused"@[0] != "targetVisible"@[0]);
    assert("targetExists"@[0] != "commandExits"@[0]);
    assert("targetFocused"@[6] != "targetEnabled"@[6]);
    assert("targetFocused"@[6] != "targetVisible"@[6]);
    assert("targetEnabled"@[6] != "targetVisible"@[6]);
}

/// The kinds of conditions.
pub fn condition_kind_text(v: ConditionKind) -> (r: &'static str)
    ensures
        r@ == condition_kind_name(v),
{
    match v {
        ConditionKind::Duration => "duration",
        ConditionKind::WindowExists => "windowExists",
        ConditionKind::WindowFocused => "windowFocused",
        ConditionKind::TargetExists => "targetExists",
        ConditionKind::TargetNotExists => "targetNotExists",
        ConditionKind::TargetFocused => "targetFocused",
        ConditionKind::TargetEnabled => "targetEnabled",
        ConditionKind::TargetVisible => "targetVisible",
        ConditionKind::TargetActionable => "targetActionable",
        ConditionKind::TargetNameContains => "targetNameContains",
        ConditionKind::TargetValueContains => "targetValueContains",
        ConditionKind::ProcessRunning => "processRunning",
        ConditionKind::FileExists => "fileExists",
        ConditionKind::CommandExits => "commandExits",
    }
}

pub fn condition_kind_from(name: &str) -> (r: Option<ConditionKind>)
    ensures
        r == condition_kind_named(name@),
{
    if same_text(name, "duration") {
        Some(ConditionKind::Duration)
    } else if same_text(name, "windowExists") {
        Some(ConditionKind::WindowExists)
    } else if same_text(name, "windowFocused") {
        Some(ConditionKind::WindowFocused)
    } else if same_text(name, "targetExists") {
        Some(ConditionKind::TargetExists)
    } else if same_text(name, "targetNotExists") {
        Some(ConditionKind::TargetNotExists)
    } else if same_text(name, "targetFocused") {
        Some(ConditionKind::TargetFocused)
    } else if same_text(name, "targetEnabled") {
        Some(ConditionKind::TargetEnabled)
    } else if same_text(name, "targetVisible") {
        Some(ConditionKind::TargetVisible)
    } else if same_text(name, "targetActionable") {
        Some(ConditionKind::TargetActionable)
    } else if same_text(name, "targetNameContains") {
        Some(ConditionKind::TargetNameContains)
    } else if same_text(name, "targetValueContains") {
        Some(ConditionKind::TargetValueContains)
    } else if same_text(name, "processRunning") {
        Some(ConditionKind::ProcessRunning)
    } else if same_text(name, "fileExists") {
        Some(ConditionKind::FileExists)
    } else if same_text(name, "commandExits") {
        Some(ConditionKind::CommandExits)
    } else {
        None
    }
}

fn decode_condition_kind(value: &Json) -> (r: Option<ConditionKind>)
    ensures
        r == condition_kind_of(value@),
{
    match value {
        Json::String(name) => condition_kind_from(name.as_str()),
        _ => None,
    }
}

pub open spec fn req_condition_kind_at(
    entries: Seq<(Seq<char>, Tree)>,
    key: Seq<char>,
) -> Option<ConditionKind> {
    required(entries, key, |t: Tree| condition_kind_of(t))
}

pub(crate) fn read_req_condition_kind_at(
    entries: &Vec<(String, Json)>,
    key: &str,
) -> (r: Option<ConditionKind>)
    ensures
        match r {
            Some(x) => req_condition_kind_at(entry_trees(entries@), key@) == Some(x),
            None => req_condition_kind_at(entry_trees(entries@), key@) is None,
        },
{
    match find_entry(entries, key) {
        None => None,
        Some(value) => decode_condition_kind(value),
    }
}

/// The kinds of assertions.
#[derive(Debug, Clone, Copy, PartialEq, Eq, Structural)]
pub enum AssertionKind {
    Condition,
    TargetExists,
}

/// The kinds of assertions.
pub open spec fn assertion_kind_name(v: AssertionKind) -> Seq<char> {
    match v {
        AssertionKind::Condition => "condition"@,
        AssertionKind::TargetExists => "targetExists"@,
    }
}

pub open spec fn assertion_kind_named(name: Seq<char>) -> Option<AssertionKind> {
    if name == "condition"@ {
        Some(AssertionKind::Condition)
    } else if name == "targetExists"@ {
        Some(AssertionKind::TargetExists)
    } else {
        None
    }
}

pub open spec fn assertion_kind_of(tree: Tree) -> Option<AssertionKind> {
    match tree {
        Tree::Text(name) => assertion_kind_named(name),
        _ => None,
    }
}

pub(crate) proof fn assertion_kind_round_trip(v: AssertionKind)
    ensures
        assertion_kind_named(assertion_kind_name(v)) == Some(v),
{
    reveal_strlit("condition");
    reveal_strlit("targetExists");
    assert("condition"@.len() == 9);
    assert("targetExists"@.len() == 12);
}

/// The kinds of assertions.
pub fn assertion_kind_text(v: AssertionKind) -> (r: &'static str)
    ensures
        r@ == assertion_kind_name(v),
{
    match v {
        AssertionKind::Condition => "condition",
        AssertionKind::TargetExists => "targetExists",
    }
}

pub fn assertion_kind_from(name: &str) -> (r: Option<AssertionKind>)
    ensures
        r == assertion_kind_named(name@),
{
    if same_text(name, "condition") {
        Some(AssertionKind::Condition)
    } else if same_text(name, "targetExists") {
        Some(AssertionKind::TargetExists)
    } else {
        None
    }
}

fn decode_assertion_kind(value: &Json) -> (r: Option<AssertionKind>)
    ensures
        r == assertion_kind_of(value@),
{
    match value {
        Json::String(name) => assertion_kind_from(name.as_str()),
        _ => None,
    }
}

pub open spec fn req_assertion_kind_at(
    entries: Seq<(Seq<char>, Tree)>,
    key: Seq<char>,
) -> Option<AssertionKind> {
    required(entries, key, |t: Tree| assertion_kind_of(t))
}

pub(crate) fn read_req_assertion_kind_at(
    entries: &Vec<(String, Json)>,
    key: &str,
) -> (r: Option<AssertionKind>)
    ensures
        match r {
            Some(x) => req_assertion_kind_at(entry_trees(entries@), key@) == Some(x),
            None => req_assertion_kind_at(entry_trees(entries@), key@) is None,
        },
{
    match find_entry(entries, key) {
        None => None,
        Some(value) => decode_assertion_kind(value),
    }
}

/// The kinds of actions.
#[derive(Debug, Clone, Copy, PartialEq, Eq, Structural)]
pub enum ActionKind {
    LaunchUrl,
    LaunchApp,
    FocusWindow,
    TypeText,
    PressKey,
    ClickTarget,
    Scroll,
    WaitFor,
    Assert,
    RunCommand,
    OpenFile,
}

/// The kinds of actions.
pub open spec fn action_kind_name(v: ActionKind) -> Seq<char> {
    match v {
        ActionKind::LaunchUrl => "launchUrl"@,
        ActionKind::LaunchApp => "launchApp"@,
        ActionKind::FocusWindow => "focusWindow"@,
        ActionKind::TypeText => "typeText"@,
        ActionKind::PressKey => "pressKey"@,
        ActionKind::ClickTarget => "clickTarget"@,
        ActionKind::Scroll => "scroll"@,
        ActionKind::WaitFor => "waitFor"@,
        ActionKind::Assert => "assert"@,
        ActionKind::RunCommand => "runCommand"@,
        ActionKind::OpenFile => "openFile"@,
    }
}

pub open spec fn action_kind_named(name: Seq<char>) -> Option<ActionKind> {
    if name == "launchUrl"@ {
        Some(ActionKind::LaunchUrl)
    } else if name == "launchApp"@ {
        Some(ActionKind::LaunchApp)
    } else if name == "focusWindow"@ {
        Some(ActionKind::FocusWindow)
    } else if name == "typeText"@ {
        Some(ActionKind::TypeText)
    } else if name == "pressKey"@ {
        Some(ActionKind::PressKey)
    } else if name == "clickTarget"@ {
        Some(ActionKind::ClickTarget)
    } else if name == "scroll"@ {
        Some(ActionKind::Scroll)
    } else if name == "waitFor"@ {
        Some(ActionKind::WaitFor)
    } else if name == "assert"@ {
        Some(ActionKind::Assert)
    } else if name == "runCommand"@ {
        Some(ActionKind::RunCommand)
    } else if name == "openFile"@ {
        Some(ActionKind::OpenFile)
    } else {
        None
    }
}

pub open spec fn action_kind_of(tree: Tree) -> Option<ActionKind> {
    match tree {
        Tree::Text(name) => action_kind_named(name),
        _ => None,
    }
}

pub(crate) proof fn action_kind_round_trip(v: ActionKind)
    ensures
        action_kind_named(action_kind_name(v)) == Some(v),
{
    reveal_strlit("launchUrl");
    reveal_strlit("launchApp");
    reveal_strlit("focusWindow");
    reveal_strlit("typeText");
    reveal_strlit("pressKey");
    reveal_strlit("clickTarget");
    reveal_strlit("scroll");
    reveal_strlit("waitFor");
    reveal_strlit("assert");
    reveal_strlit("runCommand");
    reveal_strlit("openFile");
    assert("launchUrl"@.len() == 9);
    assert("launchApp"@.len() == 9);
    assert("focusWindow"@.len() == 11);
    assert("typeText"@.len() == 8);
    assert("pressKey"@.len() == 8);
    assert("clickTarget"@.len() == 11);
    assert("scroll"@.len() == 6);
    assert("waitFor"@.len() == 7);
    assert("assert"@.len() == 6);
    assert("runCommand"@.len() == 10);
    assert("openFile"@.len() == 8);
    assert("launchUrl"@[6] != "launchApp"@[6]);
    assert("focusWindow"@[0] != "clickTarget"@[0]);
    assert("typeText"@[0] != "pressKey"@[0]);
    assert("typeText"@[0] != "openFile"@[0]);
    assert("pressKey"@[0] != "openFile"@[0]);
    assert("scroll"@[0] != "assert"@[0]);
}

/// The kinds of actions.
pub fn action_kind_text(v: ActionKind) -> (r: &'static str)
    ensures
        r@ == action_kind_name(v),
{
    match v {
        ActionKind::LaunchUrl => "launchUrl",
        ActionKind::LaunchApp => "launchApp",
        ActionKind::FocusWindow => "focusWindow",
        ActionKind::TypeText => "typeText",
        ActionKind::PressKey => "pressKey",
        ActionKind::ClickTarget => "clickTarget",
        ActionKind::Scroll => "scroll",
        ActionKind::WaitFor => "waitFor",
        ActionKind::Assert => "assert",
        ActionKind::RunCommand => "runCommand",
        ActionKind::OpenFile => "openFile",
    }
}

pub fn action_kind_from(name: &str) -> (r: Option<ActionKind>)
    ensures
        r == action_kind_named(name@),
{
    if same_text(name, "launchUrl") {
        Some(ActionKind::LaunchUrl)
    } else if same_text(name, "launchApp") {
        Some(ActionKind::LaunchApp)
    } else if same_text(name, "focusWindow") {
        Some(ActionKind::FocusWindow)
    } else if same_text(name, "typeText") {
        Some(ActionKind::TypeText)
    } else if same_text(name, "pressKey") {
        Some(ActionKind::PressKey)
    } else if same_text(name, "clickTarget") {
        Some(ActionKind::ClickTarget)
    } else if same_text(name, "scroll") {
        Some(ActionKind::Scroll)
    } else if same_text(name, "waitFor") {
        Some(ActionKind::WaitFor)
    } else if same_text(name, "assert") {
        Some(ActionKind::Assert)
    } else if same_text(name, "runCommand") {
        Some(ActionKind::RunCommand)
    } else if same_text(name, "openFile") {
        Some(ActionKind::OpenFile)
    } else {
        None
    }
}

fn decode_action_kind(value: &Json) -> (r: Option<ActionKind>)
    ensures
        r == action_kind_of(value@),
{
    match value {
        Json::String(name) => action_kind_from(name.as_str()),
        _ => None,
    }
}

pub open spec fn req_action_kind_at(
    entries: Seq<(Seq<char>, Tree)>,
    key: Seq<char>,
) -> Option<ActionKind> {
    required(entries, key, |t: Tree| action_kind_of(t))
}

pub(crate) fn read_req_action_kind_at(
    entries: &Vec<(String, Json)>,
    key: &str,
) -> (r: Option<ActionKind>)
    ensures
        match r {
            Some(x) => req_action_kind_at(entry_trees(entries@), key@) == Some(x),
            None => req_action_kind_at(entry_trees(entries@), key@) is None,
        },
{
    match find_entry(entries, key) {
        None => None,
        Some(value) => decode_action_kind(value),
    }
}

/// The kinds of variable sources.
#[derive(Debug, Clone, Copy, PartialEq, Eq, Structural)]
pub enum SourceKind {
    Literal,
    SecretReference,
}

/// The kinds of variable sources.
pub open spec fn source_kind_name(v: SourceKind) -> Seq<char> {
    match v {
        SourceKind::Literal => "literal"@,
        SourceKind::SecretReference => "secretReference"@,
    }
}

pub open spec fn source_kind_named(name: Seq<char>) -> Option<SourceKind> {
    if name == "literal"@ {
        Some(SourceKind::Literal)
    } else if name == "secretReference"@ {
        Some(SourceKind::SecretReference)
    } else {
        None
    }
}

pub open spec fn source_kind_of(tree: Tree) -> Option<SourceKind> {
    match tree {
        Tree::Text(name) => source_kind_named(name),
        _ => None,
    }
}

pub(crate) proof fn source_kind_round_trip(v: SourceKind)
    ensures
        source_kind_named(source_kind_name(v)) == Some(v),
{
    reveal_strlit("literal");
    reveal_strlit("secretReference");
    assert("literal"@.len() == 7);
    assert("secretReference"@.len() == 15);
}

/// The kinds of variable sources.
pub fn source_kind_text(v: SourceKind) -> (r: &'static str)
    ensures
        r@ == source_kind_name(v),
{
    match v {
        SourceKind::Literal => "literal",
        SourceKind::SecretReference => "secretReference",
    }
}

pub fn source_kind_from(name: &str) -> (r: Option<SourceKind>)
    ensures
        r == source_kind_named(name@),
{
    if same_text(name, "literal") {
        Some(SourceKind::Literal)
    } else if same_text(name, "secretReference") {
        Some(SourceKind::SecretReference)
    } else {
        None
    }
}

fn decode_source_kind(value: &Json) -> (r: Option<SourceKind>)
    ensures
        r == source_kind_of(value@),
{
    match value {
        Json::String(name) => source_kind_from(name.as_str()),
        _ => None,
    }
}

pub open spec fn req_source_kind_at(
    entries: Seq<(Seq<char>, Tree)>,
    key: Seq<char>,
) -> Option<SourceKind> {
    required(entries, key, |t: Tree| source_kind_of(t))
}

pub(crate) fn read_req_source_kind_at(
    entries: &Vec<(String, Json)>,
    key: &str,
) -> (r: Option<SourceKind>)
    ensures
        match r {
            Some(x) => req_source_kind_at(entry_trees(entries@), key@) == Some(x),
            None => req_source_kind_at(entry_trees(entries@), key@) is None,
        },
{
    match find_entry(entries, key) {
        None => None,
        Some(value) => decode_source_kind(value),
    }
}

pub open spec fn req_platform_at(
    entries: Seq<(Seq<char>, Tree)>,
    key: Seq<char>,
) -> Option<Platform> {
    required(entries, key, |t: Tree| platform_of(t))
}

pub(crate) fn read_req_platform_at(
    entries: &Vec<(String, Json)>,
    key: &str,
) -> (r: Option<Platform>)
    ensures
        match r {
            Some(x) => req_platform_at(entry_trees(entries@), key@) == Some(x),
            None => req_platform_at(entry_trees(entries@), key@) is None,
        },
{
    match find_entry(entries, key) {
        None => None,
        Some(value) => decode_platform(value),
    }
}

pub open spec fn def_on_error_at(
    entries: Seq<(Seq<char>, Tree)>,
    key: Seq<char>,
) -> Option<OnErrorPolicy> {
    defaulted(entries, key, |t: Tree| on_error_of(t), OnErrorPolicy::Stop)
}

pub(crate) fn read_def_on_error_at(
    entries: &Vec<(String, Json)>,
    key: &str,
) -> (r: Option<OnErrorPolicy>)
    ensures
        match r {
            Some(x) => def_on_error_at(entry_trees(entries@), key@) == Some(x),
            None => def_on_error_at(entry_trees(entries@), key@) is None,
        },
{
    match find_entry(entries, key) {
        None => {
            Some(OnErrorPolicy::Stop)
        },
        Some(value) => decode_on_error(value),
    }
}

pub open spec fn req_variable_type_at(
    entries: Seq<(Seq<char>, Tree)>,
    key: Seq<char>,
) -> Option<VariableType> {
    required(entries, key, |t: Tree| variable_type_of(t))
}

pub(crate) fn read_req_variable_type_at(
    entries: &Vec<(String, Json)>,
    key: &str,
) -> (r: Option<VariableType>)
    ensures
        match r {
            Some(x) => req_variable_type_at(entry_trees(entries@), key@) == Some(x),
            None => req_variable_type_at(entry_trees(entries@), key@) is None,
        },
{
    match find_entry(entries, key) {
        None => None,
        Some(value) => decode_variable_type(value),
    }
}

} // verus!
