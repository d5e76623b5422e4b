//! Where each switch puts its tool among the built-in ones.

use crate::protocol::{ApplyPatchToolType, PolicyView};
use crate::tool_defs::{
    bridge_tool, browser_tool, gh_run_wait_tool, image_view_tool, kill_tool,
    request_user_input_tool, sandbox_shell_tool, search_tool_bm25_tool, shell_command_tool,
    shell_tool, wait_tool,
};
use crate::tool_list::{
    built_in_tools, control_tools, only_if, patch_tools, shell_tools, web_search_of, CompanionTools,
    ShellTypeView, ToolsConfig, ToolsConfigView,
};
use crate::tools::ToolView;
use vstd::prelude::*;

verus! {

/// How many tools a switch adds.
pub open spec fn counted(b: bool) -> int {
    if b {
        1
    } else {
        0
    }
}

/// The tool is a function of this name.
pub open spec fn is_function(t: ToolView, name: Seq<char>) -> bool {
    t is Function && t->Function_0.name == name
}

proof fn list_places(
    shell: Seq<ToolView>,
    view: bool,
    view_tool: ToolView,
    patch: Seq<ToolView>,
    plan: bool,
    plan_tool: ToolView,
    ask: ToolView,
    find: bool,
    find_tool: ToolView,
    control: Seq<ToolView>,
    web: bool,
    web_tool: ToolView,
    image: bool,
    image_tool: ToolView,
)
    requires
        control.len() == 6,
    ensures
        ({
            let b = (shell + only_if(view, view_tool) + patch + only_if(plan, plan_tool)) + seq![
                ask,
            ] + only_if(find, find_tool) + control + only_if(web, web_tool) + only_if(
                image,
                image_tool,
            );
            let patch_at = shell.len() + counted(view);
            let plan_at = patch_at + patch.len();
            let ask_at = plan_at + counted(plan);
            let browser_at = ask_at + 1 + counted(find);
            let image_at = browser_at + 6 + counted(web);
            &&& b.len() == image_at + counted(image)
            &&& forall|i: int| 0 <= i < shell.len() ==> #[trigger] b[i] == shell[i]
            &&& view ==> b[shell.len() as int] == view_tool
            &&& patch.len() > 0 ==> b[patch_at] == patch[0]
            &&& plan ==> b[plan_at] == plan_tool
            &&& b[ask_at] == ask
            &&& find ==> b[ask_at + 1] == find_tool
            &&& b[browser_at] == control[0] && b[browser_at + 1] == control[1]
            &&& b[browser_at + 2] == control[2] && b[browser_at + 3] == control[3]
            &&& b[browser_at + 4] == control[4] && b[browser_at + 5] == control[5]
            &&& web ==> b[browser_at + 6] == web_tool
            &&& image ==> b[image_at] == image_tool
        }),
{
    let s1 = shell + only_if(view, view_tool);
    let s2 = s1 + patch;
    let s3 = s2 + only_if(plan, plan_tool);
    let s4 = s3 + seq![ask];
    let s5 = s4 + only_if(find, find_tool);
    let s6 = s5 + control;
    let s7 = s6 + only_if(web, web_tool);
    let b = s7 + only_if(image, image_tool);
    assert(s1.len() == shell.len() + counted(view));
    assert(s3.len() == s2.len() + counted(plan));
    assert(s5.len() == s4.len() + counted(find));
    assert(s7.len() == s6.len() + counted(web));
    assert forall|i: int| 0 <= i < s5.len() implies #[trigger] b[i] == s5[i] by {
        assert(s6[i] == s5[i]);
        assert(s7[i] == s6[i]);
    }
    assert forall|i: int| 0 <= i < s3.len() implies #[trigger] b[i] == s3[i] by {
        assert(s4[i] == s3[i]);
        assert(s5[i] == s4[i]);
    }
    assert forall|i: int| 0 <= i < s1.len() implies #[trigger] b[i] == s1[i] by {
        assert(s2[i] == s1[i]);
        assert(s3[i] == s2[i]);
    }
    assert forall|i: int| 0 <= i < 6 implies b[s5.len() + i] == #[trigger] control[i] by {
        assert(s6[s5.len() + i] == control[i]);
        assert(s7[s5.len() + i] == s6[s5.len() + i]);
    }
    assert forall|i: int| 0 <= i < shell.len() implies #[trigger] b[i] == shell[i] by {
        assert(s1[i] == shell[i]);
    }
    let n = s5.len() as int;
    assert(control[0] == b[n]);
    assert(control[1] == b[n + 1] && control[2] == b[n + 2]);
    assert(control[3] == b[n + 3] && control[4] == b[n + 4]);
    assert(control[5] == b[n + 5]);
    assert(s4[s3.len() as int] == ask);
    assert(s5[s3.len() as int] == s4[s3.len() as int]);
    if find {
        assert(s5[s4.len() as int] == find_tool);
    }
    if plan {
        assert(s3[s2.len() as int] == plan_tool);
    }
    if patch.len() > 0 {
        assert(s2[s1.len() as int] == patch[0]);
        assert(s3[s1.len() as int] == s2[s1.len() as int]);
    }
    if view {
        assert(s1[shell.len() as int] == view_tool);
    }
    if web {
        assert(s7[s6.len() as int] == web_tool);
    }
}

proof fn tools_have_names(browser_enabled: bool, policy: PolicyView)
    ensures
        is_function(shell_tool(), "shell"@),
        is_function(sandbox_shell_tool(policy), "shell"@),
        is_function(shell_command_tool(policy), "shell_command"@),
        is_function(image_view_tool(), "image_view"@),
        is_function(request_user_input_tool(), "request_user_input"@),
        search_tool_bm25_tool() is ToolSearch,
        is_function(browser_tool(browser_enabled), "browser"@),
        is_function(wait_tool(), "wait"@),
        is_function(kill_tool(), "kill"@),
        is_function(gh_run_wait_tool(), "gh_run_wait"@),
        is_function(bridge_tool(), "code_bridge"@),
{
}

/// The shell comes first: one of the configured kind.
pub proof fn shell_comes_first(
    config: ToolsConfig,
    companions: CompanionTools,
    browser_enabled: bool,
)
    ensures
        ({
            let b = built_in_tools(config.view(), companions, browser_enabled);
            &&& b.len() > 1
            &&& config.shell_type is DefaultShell ==> is_function(b[0], "shell"@)
            &&& config.shell_type is ShellWithRequest ==> is_function(b[0], "shell"@)
            &&& config.shell_type is ShellCommand ==> is_function(b[0], "shell_command"@)
            &&& config.shell_type is LocalShell ==> b[0] is LocalShell
            &&& config.shell_type is StreamableShell ==> b[0] == ToolView::Function(
                companions.exec_command.view(),
            ) && b[1] == ToolView::Function(companions.write_stdin.view())
        }),
{
    let c = config.view();
    let shell = shell_tools(c.shell_type, companions);
    let b = built_in_tools(c, companions, browser_enabled);
    built_in_places(c, companions, browser_enabled);
    assert(shell.len() > 0);
    assert(b[0] == shell[0]);
    if let ShellTypeView::ShellWithRequest { sandbox_policy } = c.shell_type {
        tools_have_names(browser_enabled, sandbox_policy);
    }
    if let ShellTypeView::ShellCommand { sandbox_policy } = c.shell_type {
        tools_have_names(browser_enabled, sandbox_policy);
    }
    if config.shell_type is StreamableShell {
        assert(b[1] == shell[1]);
    }
}

proof fn built_in_places(c: ToolsConfigView, companions: CompanionTools, browser_enabled: bool)
    ensures
        ({
            let b = built_in_tools(c, companions, browser_enabled);
            let shell = shell_tools(c.shell_type, companions);
            let patch = patch_tools(c.apply_patch_tool_type, companions);
            let control = control_tools(companions.agent.view(), browser_enabled);
            let patch_at = shell.len() + counted(c.include_view_image_tool);
            let plan_at = patch_at + patch.len();
            let ask_at = plan_at + counted(c.plan_tool);
            let browser_at = ask_at + 1 + counted(c.search_tool);
            let image_at = browser_at + 6 + counted(c.web_search_request);
            &&& b.len() == image_at + counted(c.image_gen_tool)
            &&& forall|i: int| 0 <= i < shell.len() ==> #[trigger] b[i] == shell[i]
            &&& c.include_view_image_tool ==> b[shell.len() as int] == image_view_tool()
            &&& patch.len() > 0 ==> b[patch_at] == patch[0]
            &&& c.plan_tool ==> b[plan_at] == companions.plan.view()
            &&& b[ask_at] == request_user_input_tool()
            &&& c.search_tool ==> b[ask_at + 1] == search_tool_bm25_tool()
            &&& b[browser_at] == control[0] && b[browser_at + 1] == control[1]
            &&& b[browser_at + 2] == control[2] && b[browser_at + 3] == control[3]
            &&& b[browser_at + 4] == control[4] && b[browser_at + 5] == control[5]
            &&& c.web_search_request ==> b[browser_at + 6] is WebSearch
            &&& c.image_gen_tool ==> b[image_at] is ImageGeneration && b[image_at]->output_format
                == "png"@
        }),
{
    list_places(
        shell_tools(c.shell_type, companions),
        c.include_view_image_tool,
        image_view_tool(),
        patch_tools(c.apply_patch_tool_type, companions),
        c.plan_tool,
        companions.plan.view(),
        request_user_input_tool(),
        c.search_tool,
        search_tool_bm25_tool(),
        control_tools(companions.agent.view(), browser_enabled),
        c.web_search_request,
        ToolView::WebSearch(web_search_of(c)),
        c.image_gen_tool,
        ToolView::ImageGeneration { output_format: "png"@ },
    );
}

proof fn control_names(agent: ToolView, browser_enabled: bool)
    ensures
        ({
            let control = control_tools(agent, browser_enabled);
            &&& is_function(control[0], "browser"@)
            &&& control[1] == agent
            &&& is_function(control[2], "wait"@)
            &&& is_function(control[3], "kill"@)
            &&& is_function(control[4], "gh_run_wait"@)
            &&& is_function(control[5], "code_bridge"@)
        }),
{
    tools_have_names(browser_enabled, PolicyView::ReadOnly);
}

/// Behind the shell each switch adds its tool, and just that one, in its place: first
/// what shows images, what makes patches and what keeps the plan; then what asks the user
/// and what finds tools; then the browser, the agents and what waits, ends, watches and
/// bridges; last what searches the web and what makes images.
pub proof fn switches_decide_the_tools(
    config: ToolsConfig,
    companions: CompanionTools,
    browser_enabled: bool,
)
    ensures
        ({
            let b = built_in_tools(config.view(), companions, browser_enabled);
            let view_at = if config.shell_type is StreamableShell {
                2int
            } else {
                1int
            };
            let patch_at = view_at + counted(config.include_view_image_tool);
            let plan_at = patch_at + counted(config.apply_patch_tool_type is Some);
            let ask_at = plan_at + counted(config.plan_tool);
            let find_at = ask_at + 1;
            let browser_at = find_at + counted(config.search_tool);
            let web_at = browser_at + 6;
            let image_at = web_at + counted(config.web_search_request);
            &&& b.len() == image_at + counted(config.image_gen_tool)
            &&& config.include_view_image_tool ==> is_function(b[view_at], "image_view"@)
            &&& config.apply_patch_tool_type == Some(ApplyPatchToolType::Function) ==> b[patch_at]
                == companions.apply_patch_json.view()
            &&& config.apply_patch_tool_type == Some(ApplyPatchToolType::Freeform) ==> b[patch_at]
                == companions.apply_patch_freeform.view()
            &&& config.plan_tool ==> b[plan_at] == companions.plan.view()
            &&& is_function(b[ask_at], "request_user_input"@)
            &&& config.search_tool ==> b[find_at] is ToolSearch
            &&& is_function(b[browser_at], "browser"@)
            &&& b[browser_at + 1] == companions.agent.view()
            &&& is_function(b[browser_at + 2], "wait"@)
            &&& is_function(b[browser_at + 3], "kill"@)
            &&& is_function(b[browser_at + 4], "gh_run_wait"@)
            &&& is_function(b[browser_at + 5], "code_bridge"@)
            &&& config.web_search_request ==> b[web_at] is WebSearch
            &&& config.image_gen_tool ==> b[image_at] is ImageGeneration
                && b[image_at]->output_format == "png"@
        }),
{
    let c = config.view();
    built_in_places(c, companions, browser_enabled);
    tools_have_names(browser_enabled, PolicyView::ReadOnly);
    control_names(companions.agent.view(), browser_enabled);
    shell_count(config, companions);
}

proof fn shell_count(config: ToolsConfig, companions: CompanionTools)
    ensures
        shell_tools(config.view().shell_type, companions).len() == if config.shell_type is StreamableShell {
            2int
        } else {
            1int
        },
{
}

} // verus!
