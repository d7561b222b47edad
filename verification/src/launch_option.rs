//! The line that a player pastes into a game's launch options.
use vstd::prelude::*;
use vstd::string::*;

use crate::text::{trim, trimmed};

verus! {

/// The launch option for these settings. White space around the executable's name is not
/// part of it, and without a name there is no such variable.
pub open spec fn option_text(target_exe: Seq<char>, dmabuf: bool) -> Seq<char> {
    let name = trimmed(target_exe);
    let transport = if dmabuf {
        "1"@
    } else {
        "0"@
    };
    let target = if name.len() == 0 {
        seq![]
    } else {
        " NEURALFORGE_TARGET_EXE="@ + name
    };
    "NEURALFORGE_ENABLE=1 NEURALFORGE_DMABUF="@ + transport + target + " %command%"@
}

/// The launch option for these settings.
pub fn launch_option(target_exe: &str, dmabuf: bool) -> (r: String)
    ensures
        r@ == option_text(target_exe@, dmabuf),
{
    let name = trim(target_exe);
    let mut text = "NEURALFORGE_ENABLE=1 NEURALFORGE_DMABUF=".to_owned();
    text.append(if dmabuf {
        "1"
    } else {
        "0"
    });
    if name.as_str().unicode_len() != 0 {
        text.append(" NEURALFORGE_TARGET_EXE=");
        text.append(name.as_str());
    }
    text.append(" %command%");
    assert(text@ =~= option_text(target_exe@, dmabuf));
    text
}

/// The two settings do not interfere: white space around the name changes nothing, and the
/// transport shows in its own digit alone.
pub proof fn settings_are_independent(target_exe: Seq<char>, dmabuf: bool)
    ensures
        option_text(trimmed(target_exe), dmabuf) == option_text(target_exe, dmabuf),
        option_text(target_exe, true).len() == option_text(target_exe, false).len(),
        forall|i: int|
            0 <= i < option_text(target_exe, true).len() && i
                != "NEURALFORGE_ENABLE=1 NEURALFORGE_DMABUF="@.len() ==> option_text(
                target_exe,
                true,
            )[i] == option_text(target_exe, false)[i],
{
    reveal_strlit("0");
    reveal_strlit("1");
    let ends = crate::text::trimming_cuts_white_space_only(target_exe);
}

/// The line switches the layer on, names the transport and ends in the game's own command;
/// the executable's name, where there is one, stands before that, unchanged but for white
/// space around it.
pub proof fn the_line_starts_the_game_with_the_layer(target_exe: Seq<char>, dmabuf: bool)
    ensures
        ({
            let text = option_text(target_exe, dmabuf);
            let start = "NEURALFORGE_ENABLE=1 NEURALFORGE_DMABUF="@;
            let end = " %command%"@;
            let name = trimmed(target_exe);
            &&& text.take(start.len() as int) == start
            &&& text[start.len() as int] == (if dmabuf {
                '1'
            } else {
                '0'
            })
            &&& text.skip(text.len() - end.len()) == end
            &&& name.len() == 0 ==> text.len() == start.len() + 1 + end.len()
            &&& name.len() > 0 ==> text.subrange(
                text.len() - end.len() - name.len(),
                text.len() - end.len(),
            ) == name && text.subrange(
                (start.len() + 1) as int,
                text.len() - end.len() - name.len(),
            ) == " NEURALFORGE_TARGET_EXE="@
        }),
{
    reveal_strlit("0");
    reveal_strlit("1");
    let text = option_text(target_exe, dmabuf);
    let start = "NEURALFORGE_ENABLE=1 NEURALFORGE_DMABUF="@;
    let end = " %command%"@;
    let name = trimmed(target_exe);
    assert(text.take(start.len() as int) =~= start);
    assert(text.skip(text.len() - end.len()) =~= end);
    if name.len() > 0 {
        assert(text.subrange(text.len() - end.len() - name.len(), text.len() - end.len()) =~= name);
        assert(text.subrange((start.len() + 1) as int, text.len() - end.len() - name.len())
            =~= " NEURALFORGE_TARGET_EXE="@);
    }
}

} // verus!
