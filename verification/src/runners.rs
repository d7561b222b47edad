//! The compatibility tools that the helper can run under, as the settings window offers
//! them.
use vstd::prelude::*;
use vstd::string::*;

use crate::text::same_text;

verus! {

/// A compatibility tool and where it is.
#[derive(Debug)]
pub struct Runner {
    pub name: String,
    pub path: String,
}

/// What the list shows: its entries, which one is selected, and whether one can be picked.
#[derive(Debug)]
pub struct RunnerChoices {
    pub entries: Vec<String>,
    pub selected: usize,
    pub sensitive: bool,
}

/// The name and path of each tool.
pub open spec fn tools(list: Seq<Runner>) -> Seq<(Seq<char>, Seq<char>)> {
    list.map_values(|runner: Runner| (runner.name@, runner.path@))
}

/// The contents of each text.
pub open spec fn texts(list: Seq<String>) -> Seq<Seq<char>> {
    list.map_values(|text: String| text@)
}

/// The tools offered: those found, and after them the system's Wine, if there is one.
pub open spec fn offered(found: Seq<(Seq<char>, Seq<char>)>, wine: Option<Seq<char>>) -> Seq<
    (Seq<char>, Seq<char>),
> {
    match wine {
        Some(path) => found.push(("System Wine"@, path)),
        None => found,
    }
}

/// `selected` is the number of the first tool at this path or, where no tool is there, of
/// the first of all.
pub open spec fn selects(list: Seq<(Seq<char>, Seq<char>)>, path: Seq<char>, selected: int) -> bool {
    if exists|i: int| 0 <= i < list.len() && (#[trigger] list[i]).1 == path {
        &&& 0 <= selected < list.len()
        &&& list[selected].1 == path
        &&& forall|i: int| 0 <= i < selected ==> (#[trigger] list[i]).1 != path
    } else {
        selected == 0
    }
}

/// The tools offered, from those found and the path of the system's Wine.
pub fn runner_options(found: Vec<Runner>, wine: Option<String>) -> (r: Vec<Runner>)
    ensures
        tools(r@) == offered(
            tools(found@),
            match wine {
                Some(path) => Some(path@),
                None => None,
            },
        ),
{
    let mut options = found;
    let ghost before = tools(options@);
    if let Some(path) = wine {
        let ghost place = path@;
        options.push(Runner { name: "System Wine".to_owned(), path });
        assert(tools(options@) =~= before.push(("System Wine"@, place)));
    }
    options
}

/// Which tool is selected, for the path in the configuration.
pub fn selected_runner(options: &Vec<Runner>, configured: &str) -> (r: usize)
    ensures
        selects(tools(options@), configured@, r as int),
{
    let ghost list = tools(options@);
    let mut i: usize = 0;
    while i < options.len()
        invariant
            i <= options@.len(),
            list == tools(options@),
            forall|k: int| 0 <= k < i ==> (#[trigger] list[k]).1 != configured@,
        decreases options@.len() - i,
    {
        if same_text(options[i].path.as_str(), configured) {
            assert(list[i as int].1 == configured@);
            return i;
        }
        assert(list[i as int].1 != configured@);
        i += 1;
    }
    0
}

/// What the list shows.
pub fn runner_choices(options: &Vec<Runner>, configured: &str) -> (r: RunnerChoices)
    ensures
        r.sensitive == (options@.len() > 0),
        texts(r.entries@) == (if options@.len() == 0 {
            seq!["No compatibility tool found"@]
        } else {
            tools(options@).map_values(|tool: (Seq<char>, Seq<char>)| tool.0)
        }),
        selects(tools(options@), configured@, r.selected as int),
{
    if options.len() == 0 {
        let entries = vec!["No compatibility tool found".to_owned()];
        assert(texts(entries@) =~= seq!["No compatibility tool found"@]);
        return RunnerChoices { entries, selected: 0, sensitive: false };
    }
    let ghost wanted = tools(options@).map_values(|tool: (Seq<char>, Seq<char>)| tool.0);
    let mut entries: Vec<String> = Vec::new();
    let mut i: usize = 0;
    while i < options.len()
        invariant
            i <= options@.len(),
            entries@.len() == i,
            forall|k: int| 0 <= k < i ==> (#[trigger] entries@[k])@ == options@[k].name@,
        decreases options@.len() - i,
    {
        entries.push(options[i].name.as_str().to_owned());
        i += 1;
    }
    assert(texts(entries@) =~= wanted);
    RunnerChoices { entries, selected: selected_runner(options, configured), sensitive: true }
}

/// How the configuration names the kind of a tool.
pub fn runner_type(name: &str) -> (r: String)
    ensures
        r@ == (if name@ == "System Wine"@ {
            "wine"@
        } else {
            "proton"@
        }),
{
    if same_text(name, "System Wine") {
        "wine".to_owned()
    } else {
        "proton".to_owned()
    }
}

/// The selection is always one of the tools offered, if there are any: a path in the
/// configuration that is gone selects the first.
pub proof fn the_selection_is_offered(list: Seq<(Seq<char>, Seq<char>)>, path: Seq<char>, selected: int)
    requires
        selects(list, path, selected),
        list.len() > 0,
    ensures
        0 <= selected < list.len(),
{
}

/// The tool that was configured is the one selected: wherever a tool is at that path, the
/// selection is at that path, and it is the first such one.
pub proof fn the_configured_tool_is_selected(list: Seq<(Seq<char>, Seq<char>)>, path: Seq<char>, selected: int, i: int)
    requires
        selects(list, path, selected),
        0 <= i < list.len(),
        list[i].1 == path,
    ensures
        0 <= selected <= i,
        list[selected].1 == path,
{
}

/// Every tool that was found is offered, in the order found, and the system's Wine after them,
/// at the path where it is.
pub proof fn every_tool_is_offered(found: Seq<(Seq<char>, Seq<char>)>, wine: Option<Seq<char>>, i: int)
    ensures
        0 <= i < found.len() ==> offered(found, wine)[i] == found[i],
        wine is None ==> offered(found, wine).len() == found.len(),
        wine matches Some(path) ==> offered(found, wine).len() == found.len() + 1 && offered(
            found,
            wine,
        ).last() == ("System Wine"@, path),
{
}

} // verus!
