//! Properties that hold across the session's operations.
use vstd::prelude::*;

use crate::config::{ConfigView, Provider};
use crate::layout::{down, inside, up};
use crate::session::{AppView, Key, MessageView, MouseKind, ReplyView, SaveView, Screen,
    command_step, key_step, model_step, mouse_step, remove_step, rename_step, response_step,
    save_of, save_step, screen_of, submit_step, switch_step};
use crate::text::lowercase;

verus! {

/// The pending save names a configured model, if it names one.
pub open spec fn select_valid(config: ConfigView, out: Option<SaveView>) -> bool {
    out matches Some(p) ==> (p.select matches Some(n) ==> config.models.contains_key(n))
}

/// A slash command never leaves the selection pointing at a model that is
/// not configured, and a model it asks to select once saved is configured.
pub proof fn lemma_command_keeps_selection(pre: AppView, post: AppView, out: Option<SaveView>)
    requires
        command_step(pre, post, out),
        pre.config.selection_valid(),
    ensures
        post.config.selection_valid(),
        select_valid(post.config, out),
{
}

/// Reporting the write of a command's changes keeps the selection valid.
pub proof fn lemma_save_keeps_selection(
    pre: AppView,
    pending: SaveView,
    error: Option<Seq<char>>,
    post: AppView,
)
    requires
        save_step(pre, pending, error, post),
        pre.config.selection_valid(),
        select_valid(pre.config, Some(pending)),
    ensures
        post.config.selection_valid(),
{
}

/// No key press leaves the selection pointing at a model that is not
/// configured.
pub proof fn lemma_key_keeps_selection(pre: AppView, key: Key, post: AppView, out: ReplyView)
    requires
        key_step(pre, key, post, out),
        pre.config.selection_valid(),
    ensures
        post.config.selection_valid(),
        select_valid(post.config, save_of(out)),
{
    if key == Key::Enter && pre.input.len() > 0 && pre.input[0] == '/' {
        lemma_command_keeps_selection(pre, AppView { cursor: pre.cursor, ..post }, save_of(out));
    }
}

/// Every slash command consumes the input line and leaves the cursor alone.
pub proof fn lemma_command_consumes_line(pre: AppView, post: AppView, out: Option<SaveView>)
    requires
        command_step(pre, post, out),
    ensures
        post.input.len() == 0,
        post.cursor == pre.cursor,
{
}

/// A command that waits for a save changes no status line before the save
/// is reported, and the save then shows either its report or the error.
pub proof fn lemma_save_reports(
    pre: AppView,
    mid: AppView,
    pending: SaveView,
    error: Option<Seq<char>>,
    post: AppView,
)
    requires
        command_step(pre, mid, Some(pending)),
        save_step(mid, pending, error, post),
    ensures
        mid.status == pre.status,
        post.status == match error {
            Some(e) => "Error saving config: "@ + e,
            None => pending.on_success,
        },
{
}

/// Typing a character and then erasing it with Backspace gives back the
/// input line and the cursor (the chat view stays scrolled to the bottom).
pub proof fn lemma_type_then_erase(
    pre: AppView,
    c: char,
    control: bool,
    mid: AppView,
    o1: ReplyView,
    post: AppView,
    o2: ReplyView,
)
    requires
        !(c == 'c' && control),
        pre.cursor <= pre.input.len(),
        key_step(pre, Key::Char(c, control), mid, o1),
        key_step(mid, Key::Backspace, post, o2),
    ensures
        post == (AppView { chat_scroll: 0, ..pre }),
{
    let i = pre.cursor as int;
    assert(mid.input.take(i) =~= pre.input.take(i));
    assert(mid.input.skip(i + 1) =~= pre.input.skip(i));
    assert(post.input =~= pre.input);
}

/// Scrolling a page up and a page down comes back to where it started,
/// unless the page up was held at the top.
pub proof fn lemma_page_round_trip(
    pre: AppView,
    mid: AppView,
    o1: ReplyView,
    post: AppView,
    o2: ReplyView,
)
    requires
        key_step(pre, Key::PageUp, mid, o1),
        key_step(mid, Key::PageDown, post, o2),
        (if pre.show_help {
            pre.help_scroll
        } else {
            pre.chat_scroll
        }) + 10 <= u16::MAX,
    ensures
        post == pre,
{
}

/// Renaming a model and renaming it back restores the registry, when the
/// new name was free, the entry carried its key as its name, and the
/// selection named a configured model.
pub proof fn lemma_rename_round_trip(
    a: AppView,
    x: Seq<char>,
    y: Seq<char>,
    w1: Seq<Seq<char>>,
    w2: Seq<Seq<char>>,
    mid: AppView,
    o1: Option<SaveView>,
    post: AppView,
    o2: Option<SaveView>,
)
    requires
        w1.len() == 3 && w1[1] == x && w1[2] == y,
        w2.len() == 3 && w2[1] == y && w2[2] == x,
        x != y,
        a.config.models.contains_key(x),
        !a.config.models.contains_key(y),
        a.config.models[x].name == x,
        a.config.selection_valid(),
        rename_step(a, w1, mid, o1),
        rename_step(mid, w2, post, o2),
    ensures
        post.config == a.config,
{
    assert(mid.config.models.contains_key(y));
    assert(mid.config.models[y].name == y);
    assert(post.config.models[x] =~= a.config.models[x]);
    assert(post.config.models =~= a.config.models);
    assert(post.config =~= a.config);
}

/// A message sent to a model carries the whole conversation, ending with
/// the line that was typed.
pub proof fn lemma_sent_conversation(pre: AppView, post: AppView, out: ReplyView)
    requires
        submit_step(pre, post, out),
        out is Send,
    ensures
        out->Send_1 == post.messages,
        post.messages.last().content == pre.input,
        post.messages.len() == pre.messages.len() + 1,
        post.is_loading,
{
}

/// Scrolling with the keys never moves past either end of `u16`.
pub proof fn lemma_scroll_bounds(x: u16, d: u16)
    ensures
        up(x, d) >= x,
        down(x, d) <= x,
        x + d <= u16::MAX ==> down(up(x, d), d) == x,
{
}

/// On a screen laid out in the same areas, clicking the sidebar row on
/// which a frame lists a model selects that model.
pub proof fn lemma_click_selects_listed_model(
    a: AppView,
    frame: Screen,
    column: u16,
    row: u16,
    post: AppView,
)
    requires
        screen_of(a, frame),
        inside(frame.areas.sidebar, column, row),
        row - frame.areas.sidebar.y - 1 < frame.models@.len(),
        mouse_step(a, MouseKind::LeftDown, column, row, frame.areas, post),
    ensures
        post.config.current == Some(frame.models@[row - frame.areas.sidebar.y - 1].0@),
{
    let i = row - frame.areas.sidebar.y - 1;
    assert(frame.models@[i].0@ == crate::config::listing(a.config.models)[i]);
}

/// `/model` with the provider word "openai", "groq" or "ollama" (in any
/// case) registers the named model as OpenAI-compatible, with the given key
/// and, when no base URL is given, OpenAI's; with "gemini" it registers a
/// Gemini model. Either way a save is asked for that selects the model.
pub proof fn lemma_model_provider_words(a: AppView, w: Seq<Seq<char>>, post: AppView, out: Option<SaveView>)
    requires
        model_step(a, w, post, out),
        w.len() >= 4,
    ensures
        lowercase(w[1]) == "openai"@ || lowercase(w[1]) == "groq"@ || lowercase(w[1]) == "ollama"@
            ==> {
            &&& post.config.models.contains_key(w[2])
            &&& post.config.models[w[2]].provider == Provider::OpenAICompat
            &&& post.config.models[w[2]].name == w[2]
            &&& post.config.models[w[2]].api_key == w[3]
            &&& w.len() == 4 ==> post.config.models[w[2]].base_url == "https://api.openai.com/v1"@
            &&& w.len() >= 5 ==> post.config.models[w[2]].base_url == w[4]
            &&& out matches Some(p) && p.select == Some(w[2])
        },
        lowercase(w[1]) == "gemini"@ ==> {
            &&& post.config.models.contains_key(w[2])
            &&& post.config.models[w[2]].provider == Provider::Gemini
            &&& post.config.models[w[2]].api_key == w[3]
            &&& w.len() == 4 ==> post.config.models[w[2]].base_url
                == "https://generativelanguage.googleapis.com"@
            &&& out matches Some(p) && p.select == Some(w[2])
        },
{
    reveal_strlit("gemini");
    reveal_strlit("openai");
    reveal_strlit("groq");
    reveal_strlit("ollama");
    let word = lowercase(w[1]);
    if word == "openai"@ {
        assert("openai"@[0] != "gemini"@[0]);
    }
    if word == "groq"@ {
        assert("groq"@.len() != "gemini"@.len());
    }
    if word == "ollama"@ {
        assert("ollama"@[0] != "gemini"@[0]);
    }
}

/// `/remove` takes the named model out and leaves every other model as it
/// was; it asks for a save exactly when the model was there. The
/// selection changes only when it was the removed model, and then no
/// longer names it.
pub proof fn lemma_remove_leaves_others(a: AppView, w: Seq<Seq<char>>, post: AppView, out: Option<SaveView>)
    requires
        remove_step(a, w, post, out),
        w.len() >= 2,
    ensures
        !post.config.models.contains_key(w[1]),
        forall|k: Seq<char>|
            k != w[1] ==> (#[trigger] post.config.models.contains_key(k)
                == a.config.models.contains_key(k) && (a.config.models.contains_key(k)
                ==> post.config.models[k] == a.config.models[k])),
        (out is Some) == a.config.models.contains_key(w[1]),
        a.config.current != Some(w[1]) ==> post.config.current == a.config.current,
        a.config.models.contains_key(w[1]) ==> post.config.current != Some(w[1]),
        post.messages == a.messages && post.input == a.input,
{
}

/// `/switch` selects the named model when it is configured, and otherwise
/// changes no model and no selection; it never asks for a save.
pub proof fn lemma_switch_selects(a: AppView, w: Seq<Seq<char>>, post: AppView, out: Option<SaveView>)
    requires
        switch_step(a, w, post, out),
        w.len() >= 2,
    ensures
        out is None,
        post.config.models == a.config.models,
        post.config.current == if a.config.models.contains_key(w[1]) {
            Some(w[1])
        } else {
            a.config.current
        },
{
}

/// Enter sends a request only to the selected model, which must be
/// configured; the request carries the conversation followed by the typed
/// line as a user message, and the session then waits for the answer.
pub proof fn lemma_send_goes_to_selected_model(pre: AppView, post: AppView, out: ReplyView)
    requires
        key_step(pre, Key::Enter, post, out),
        out is Send,
    ensures
        pre.config.current is Some,
        pre.config.models.contains_key(pre.config.current->0),
        out->Send_0 == pre.config.models[pre.config.current->0],
        out->Send_1 == pre.messages.push((MessageView { role: "user"@, content: pre.input })),
        post.messages == out->Send_1,
        post.is_loading,
        !pre.is_loading,
        post.input.len() == 0,
        post.config == pre.config,
{
}

/// The cursor keys leave the line alone: Left and Right move the cursor
/// by one character when there is room, Home to the start, End to the end.
pub proof fn lemma_cursor_keys(pre: AppView, key: Key, post: AppView, out: ReplyView)
    requires
        key_step(pre, key, post, out),
        key == Key::Left || key == Key::Right || key == Key::Home || key == Key::End,
    ensures
        out == ReplyView::Continue,
        post.input == pre.input,
        post.config == pre.config,
        key == Key::Right && pre.cursor < pre.input.len() ==> post.cursor == pre.cursor + 1,
        key == Key::Right && pre.cursor >= pre.input.len() ==> post.cursor == pre.cursor,
        key == Key::Left && pre.cursor > 0 ==> post.cursor == pre.cursor - 1,
        key == Key::Left && pre.cursor == 0 ==> post.cursor == 0,
        key == Key::Home ==> post.cursor == 0,
        key == Key::End ==> post.cursor == pre.input.len(),
{
}

/// Right then Left comes back to the same place, before the line's end.
pub proof fn lemma_right_then_left(
    pre: AppView,
    mid: AppView,
    o1: ReplyView,
    post: AppView,
    o2: ReplyView,
)
    requires
        pre.cursor < pre.input.len(),
        key_step(pre, Key::Right, mid, o1),
        key_step(mid, Key::Left, post, o2),
    ensures
        post == pre,
{
}

/// Typing a character puts it at the cursor, shifts the rest of the line
/// one place on, and moves the cursor past it.
pub proof fn lemma_typing_inserts_at_cursor(pre: AppView, c: char, post: AppView, out: ReplyView)
    requires
        c != 'c',
        pre.cursor <= pre.input.len(),
        key_step(pre, Key::Char(c, false), post, out),
    ensures
        post.input.len() == pre.input.len() + 1,
        post.input[pre.cursor as int] == c,
        post.cursor == pre.cursor + 1,
        forall|j: int| 0 <= j < pre.cursor ==> post.input[j] == #[trigger] pre.input[j],
        forall|j: int| pre.cursor <= j < pre.input.len() ==> post.input[j + 1] == #[trigger] pre.input[j],
{
}

/// Delete before the line's end drops the character at the cursor and
/// keeps the cursor; Backspace after the start drops the one before it and
/// moves the cursor back.
pub proof fn lemma_deleting_keys(pre: AppView, key: Key, post: AppView, out: ReplyView)
    requires
        key_step(pre, key, post, out),
        key == Key::Delete || key == Key::Backspace,
        pre.cursor <= pre.input.len(),
    ensures
        key == Key::Delete && pre.cursor < pre.input.len() ==> {
            &&& post.input.len() == pre.input.len() - 1
            &&& post.cursor == pre.cursor
            &&& post.input =~= pre.input.remove(pre.cursor as int)
        },
        key == Key::Backspace && pre.cursor > 0 ==> {
            &&& post.input.len() == pre.input.len() - 1
            &&& post.cursor == pre.cursor - 1
            &&& post.input =~= pre.input.remove(pre.cursor - 1)
        },
{
}

/// Any answer to a sent request ends the wait: a text becomes the last
/// message, from the assistant; an error leaves the conversation as it was
/// and is shown.
pub proof fn lemma_answer_ends_wait(
    pre: AppView,
    res: Result<Seq<char>, Seq<char>>,
    post: AppView,
)
    requires
        response_step(pre, res, post),
    ensures
        !post.is_loading,
        post.config == pre.config,
        post.input == pre.input,
        (res is Ok) ==> post.messages.len() == pre.messages.len() + 1 && post.messages.last()
            == (MessageView { role: "assistant"@, content: res->Ok_0 })
            && post.messages.drop_last() == pre.messages,
        (res is Err) ==> post.messages == pre.messages && post.status == "Error: "@ + res->Err_0,
{
    if res is Ok {
        assert(post.messages.drop_last() =~= pre.messages);
    }
}

/// A failed write of the configuration changes no model and no selection.
pub proof fn lemma_failed_save_changes_nothing(
    pre: AppView,
    pending: SaveView,
    e: Seq<char>,
    post: AppView,
)
    requires
        save_step(pre, pending, Some(e), post),
    ensures
        post.config == pre.config,
        post.messages == pre.messages,
{
}

/// `/rename` moves the named model to the new name, which it takes as its
/// own name while keeping its key, base URL and provider; no other model
/// changes, and the selection follows the moved model.
pub proof fn lemma_rename_moves(a: AppView, w: Seq<Seq<char>>, post: AppView, out: Option<SaveView>)
    requires
        rename_step(a, w, post, out),
        w.len() >= 3,
        a.config.models.contains_key(w[1]),
    ensures
        out is Some,
        post.config.models.contains_key(w[2]),
        post.config.models[w[2]].name == w[2],
        post.config.models[w[2]].api_key == a.config.models[w[1]].api_key,
        post.config.models[w[2]].base_url == a.config.models[w[1]].base_url,
        post.config.models[w[2]].provider == a.config.models[w[1]].provider,
        w[1] != w[2] ==> !post.config.models.contains_key(w[1]),
        forall|k: Seq<char>|
            k != w[1] && k != w[2] ==> (#[trigger] post.config.models.contains_key(k)
                == a.config.models.contains_key(k) && (a.config.models.contains_key(k)
                ==> post.config.models[k] == a.config.models[k])),
        a.config.current == Some(w[1]) ==> post.config.current == Some(w[2]),
        a.config.current != Some(w[1]) ==> post.config.current == a.config.current,
{
}

/// The whole lines `/help` and `/clear` open the help pane and empty the
/// conversation; neither changes a model or the selection.
pub proof fn lemma_help_and_clear(pre: AppView, post: AppView, out: Option<SaveView>)
    requires
        command_step(pre, post, out),
    ensures
        pre.input == "/help"@ ==> post.show_help && out is None && post.config == pre.config
            && post.messages == pre.messages,
        pre.input == "/clear"@ ==> post.messages.len() == 0 && post.chat_scroll == 0 && out is None
            && post.config == pre.config && post.show_help == pre.show_help,
{
    reveal_strlit("/model");
    reveal_strlit("/switch");
    reveal_strlit("/remove");
    reveal_strlit("/rename");
    reveal_strlit("/help");
    reveal_strlit("/clear");
    if pre.input == "/help"@ {
        assert(!"/model"@.is_prefix_of(pre.input)) by {
            assert("/model"@[1] != pre.input[1]);
        }
        assert(!"/switch"@.is_prefix_of(pre.input)) by {
            assert("/switch"@.len() > pre.input.len());
        }
        assert(!"/remove"@.is_prefix_of(pre.input)) by {
            assert("/remove"@.len() > pre.input.len());
        }
        assert(!"/rename"@.is_prefix_of(pre.input)) by {
            assert("/rename"@.len() > pre.input.len());
        }
    }
    if pre.input == "/clear"@ {
        assert(!"/model"@.is_prefix_of(pre.input)) by {
            assert("/model"@[1] != pre.input[1]);
        }
        assert(!"/switch"@.is_prefix_of(pre.input)) by {
            assert("/switch"@.len() > pre.input.len());
        }
        assert(!"/remove"@.is_prefix_of(pre.input)) by {
            assert("/remove"@.len() > pre.input.len());
        }
        assert(!"/rename"@.is_prefix_of(pre.input)) by {
            assert("/rename"@.len() > pre.input.len());
        }
        assert(pre.input != "/help"@) by {
            assert("/help"@.len() != pre.input.len());
        }
    }
}

/// A successful write selects the model the pending save names (or keeps
/// the selection when it names none) and changes no model.
pub proof fn lemma_successful_save_selects(pre: AppView, pending: SaveView, post: AppView)
    requires
        save_step(pre, pending, None, post),
    ensures
        post.config.models == pre.config.models,
        post.status == pending.on_success,
        pending.select matches Some(n) ==> post.config.current == Some(n),
        pending.select is None ==> post.config.current == pre.config.current,
{
}

} // verus!
