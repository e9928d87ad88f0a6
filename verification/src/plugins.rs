//! The fixed plugin list shared by every render.

use vstd::prelude::*;

verus! {

use crate::text::no_newline;

/// The fixed, ordered list of plugin identifiers (owner/repo style). It is
/// identical across all kinds and all invocations.
pub open spec fn spec_plugins() -> Seq<Seq<char>> {
    seq![
        "zsh-users/zsh-autosuggestions"@,
        "wting/autojump"@,
        "zsh-users/zsh-syntax-highlighting"@,
        "StackExchange/blackbox"@,
        "sobolevn/git-secret"@,
        "b4b4r07/enhancd"@,
        "fcambus/ansiweather"@,
        "chriskempson/base16-shell"@,
        "supercrabtree/k"@,
        "zsh-users/zsh-history-substring-search"@,
        "wfxr/forgit"@,
        "zdharma/fast-syntax-highlighting"@,
        "iam4x/zsh-iterm-touchbar"@,
        "unixorn/git-extra-commands"@,
        "MichaelAquilina/zsh-you-should-use"@,
        "mfaerevaag/wd"@,
        "zsh-users/zaw"@,
        "Tarrasch/zsh-autoenv"@,
        "mafredri/zsh-async"@,
        "djui/alias-tips"@,
        "agkozak/zsh-z"@,
        "changyuheng/fz"@,
        "b4b4r07/emoji-cli"@,
        "Tarrasch/zsh-bd"@,
        "Vifon/deer"@,
        "zdharma/history-search-multi-word"@,
    ]
}

/// The plugin list as argument values.
pub fn plugins() -> (r: Vec<&'static str>)
    ensures
        r.deep_view() == spec_plugins(),
{
    let mut r: Vec<&'static str> = Vec::new();
    r.push("zsh-users/zsh-autosuggestions");
    r.push("wting/autojump");
    r.push("zsh-users/zsh-syntax-highlighting");
    r.push("StackExchange/blackbox");
    r.push("sobolevn/git-secret");
    r.push("b4b4r07/enhancd");
    r.push("fcambus/ansiweather");
    r.push("chriskempson/base16-shell");
    r.push("supercrabtree/k");
    r.push("zsh-users/zsh-history-substring-search");
    r.push("wfxr/forgit");
    r.push("zdharma/fast-syntax-highlighting");
    r.push("iam4x/zsh-iterm-touchbar");
    r.push("unixorn/git-extra-commands");
    r.push("MichaelAquilina/zsh-you-should-use");
    r.push("mfaerevaag/wd");
    r.push("zsh-users/zaw");
    r.push("Tarrasch/zsh-autoenv");
    r.push("mafredri/zsh-async");
    r.push("djui/alias-tips");
    r.push("agkozak/zsh-z");
    r.push("changyuheng/fz");
    r.push("b4b4r07/emoji-cli");
    r.push("Tarrasch/zsh-bd");
    r.push("Vifon/deer");
    r.push("zdharma/history-search-multi-word");
    proof {
        assert(r.deep_view() =~~= spec_plugins());
    }
    r
}

/// No plugin identifier holds a newline or a brace.
pub proof fn lemma_plugins_clean()
    ensures
        forall|i: int|
            0 <= i < spec_plugins().len() ==> no_newline(#[trigger] spec_plugins()[i]),
        forall|i: int, j: int|
            0 <= i < spec_plugins().len() && 0 <= j < spec_plugins()[i].len()
                ==> #[trigger] spec_plugins()[i][j] != '{',
{
    reveal_strlit("zsh-users/zsh-autosuggestions");
    reveal_strlit("wting/autojump");
    reveal_strlit("zsh-users/zsh-syntax-highlighting");
    reveal_strlit("StackExchange/blackbox");
    reveal_strlit("sobolevn/git-secret");
    reveal_strlit("b4b4r07/enhancd");
    reveal_strlit("fcambus/ansiweather");
    reveal_strlit("chriskempson/base16-shell");
    reveal_strlit("supercrabtree/k");
    reveal_strlit("zsh-users/zsh-history-substring-search");
    reveal_strlit("wfxr/forgit");
    reveal_strlit("zdharma/fast-syntax-highlighting");
    reveal_strlit("iam4x/zsh-iterm-touchbar");
    reveal_strlit("unixorn/git-extra-commands");
    reveal_strlit("MichaelAquilina/zsh-you-should-use");
    reveal_strlit("mfaerevaag/wd");
    reveal_strlit("zsh-users/zaw");
    reveal_strlit("Tarrasch/zsh-autoenv");
    reveal_strlit("mafredri/zsh-async");
    reveal_strlit("djui/alias-tips");
    reveal_strlit("agkozak/zsh-z");
    reveal_strlit("changyuheng/fz");
    reveal_strlit("b4b4r07/emoji-cli");
    reveal_strlit("Tarrasch/zsh-bd");
    reveal_strlit("Vifon/deer");
    reveal_strlit("zdharma/history-search-multi-word");
}

} // verus!
