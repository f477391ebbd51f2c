//! What the scripts' texts hold, read as marked-up text.

use vstd::prelude::*;
use crate::markup::{
    attribute, attribute_from, first_enclosed, free_of, lemma_enclosed_between,
    lemma_next_mark_bounds, next_mark, opens_attribute,
};
use crate::script::{
    back_text, call_text, element_text, forward_text, navigate_text, refresh_text, ASSIGN_HEAD,
    ASSIGN_TAIL, CALL_TAIL, ELEMENT_FULLSCREEN, ELEMENT_HEAD, ELEMENT_QUERY, ELEMENT_STYLE,
    ELEMENT_TAIL, IF_PRESENT,
};

verus! {

/// What the literal `ELEMENT_HEAD` holds, as far as reading it needs it.
proof fn lemma_element_head_text()
    ensures
        ELEMENT_HEAD@.len() == 44,
        forall|i: int| 0 <= i < 43 ==> ELEMENT_HEAD@[i] != '"',
        forall|i: int| 0 <= i < 44 ==> ELEMENT_HEAD@[i] != '`',
        ELEMENT_HEAD@.subrange(39, 42) == "src"@,
        ELEMENT_HEAD@[42] == '=',
        ELEMENT_HEAD@[43] == '"',
{
    reveal_strlit("\n            <webview \n                src=\"");
    reveal_strlit("src");
    assert(ELEMENT_HEAD@.subrange(39, 42) =~= "src"@);
}

/// What the literal `ELEMENT_TAIL` holds, as far as reading it needs it.
proof fn lemma_element_tail_text()
    ensures
        ELEMENT_TAIL@.len() == 137,
        forall|i: int|
            0 <= i < 137 && i != 0 && i != 25 && i != 63 && i != 97 && i != 103
                ==> ELEMENT_TAIL@[i] != '"',
        forall|i: int| 0 <= i < 137 ==> ELEMENT_TAIL@[i] != '`',
        ELEMENT_TAIL@[0] == '"',
        ELEMENT_TAIL@.subrange(19, 24) == "style"@,
        ELEMENT_TAIL@[24] == '=',
        ELEMENT_TAIL@[25] == '"',
        ELEMENT_TAIL@.subrange(26, 63) == ELEMENT_STYLE@,
        ELEMENT_TAIL@[63] == '"',
        ELEMENT_TAIL@.subrange(81, 96) == "allowfullscreen"@,
        ELEMENT_TAIL@[96] == '=',
        ELEMENT_TAIL@[97] == '"',
        ELEMENT_TAIL@.subrange(98, 103) == ELEMENT_FULLSCREEN@,
        ELEMENT_TAIL@[103] == '"',
{
    reveal_strlit(
        "\" \n                style=\"width:100%; height:100%; border:none;\"\n                allowfullscreen=\"false\"\n            ></webview>\n        ",
    );
    reveal_strlit("style");
    reveal_strlit("allowfullscreen");
    reveal_strlit("width:100%; height:100%; border:none;");
    reveal_strlit("false");
    assert(ELEMENT_TAIL@.subrange(19, 24) =~= "style"@);
    assert(ELEMENT_TAIL@.subrange(26, 63) =~= ELEMENT_STYLE@);
    assert(ELEMENT_TAIL@.subrange(81, 96) =~= "allowfullscreen"@);
    assert(ELEMENT_TAIL@.subrange(98, 103) =~= ELEMENT_FULLSCREEN@);
}

/// Where the literals `ASSIGN_HEAD` and `ASSIGN_TAIL` hold their backticks.
proof fn lemma_assign_text()
    ensures
        ASSIGN_HEAD@.len() == 67,
        forall|i: int| 0 <= i < 66 ==> ASSIGN_HEAD@[i] != '`',
        ASSIGN_HEAD@[66] == '`',
        ASSIGN_TAIL@.len() == 7,
        ASSIGN_TAIL@[0] == '`',
{
    reveal_strlit("\n        document.getElementById('webview-container').innerHTML = `");
    reveal_strlit("`;\n    ");
}

/// The script assigns the element's markup, whole, exactly where the
/// address holds no backtick: then, and only then, what the script's first
/// pair of backticks encloses is the markup of an element with that address.
pub proof fn lemma_navigate_assigns_element(url: Seq<char>)
    ensures
        first_enclosed(navigate_text(url), '`') == Some(element_text(url)) <==> free_of(url, '`'),
{
    lemma_assign_text();
    lemma_element_head_text();
    lemma_element_tail_text();
    lemma_next_mark_bounds(url, '`', 0);
    let element = element_text(url);
    let text = navigate_text(url);
    let cut: int = next_mark(url, '`', 0);
    // The backtick that closes: the address's first one, or else the statement's own.
    let end: int = 67 + element.len() as int;
    let close: int = if cut < url.len() {
        111 + cut
    } else {
        end
    };
    assert forall|i: int| 0 <= i < 67 implies text[i] == ASSIGN_HEAD@[i] by {}
    assert forall|i: int| 67 <= i < 67 + element.len() implies text[i] == element[i - 67] by {}
    assert forall|i: int| 0 <= i < 44 implies element[i] == ELEMENT_HEAD@[i] by {}
    assert forall|i: int| 44 <= i < 44 + url.len() implies element[i] == url[i - 44] by {}
    assert forall|i: int| 44 + url.len() <= i < element.len() implies element[i]
        == ELEMENT_TAIL@[i - 44 - url.len()] by {}
    assert(text[end] == ASSIGN_TAIL@[0]);
    assert forall|i: int| 66 < i < close implies text[i] != '`' by {
        let at: int = i - 67;
        assert(text[i] == element[at]);
        if 44 <= at < 44 + url.len() {
            assert(element[at] == url[at - 44]);
        }
    }
    lemma_enclosed_between(text, '`', 0, 66, close);
    if cut < url.len() {
        assert(text.subrange(67, close).len() < element.len());
        assert(url[cut] == '`');
    } else {
        assert(text.subrange(67, close) =~= element);
    }
}

/// What the element's markup gives `src`, for any address: the address up to
/// its first double quote. So `src` reads the address, character by
/// character, exactly where the address holds no double quote.
pub proof fn lemma_element_source(url: Seq<char>)
    ensures
        attribute(element_text(url), "src"@) == Some(url.subrange(0, next_mark(url, '"', 0))),
        attribute(element_text(url), "src"@) == Some(url) <==> free_of(url, '"'),
{
    lemma_element_head_text();
    lemma_element_tail_text();
    lemma_next_mark_bounds(url, '"', 0);
    reveal_strlit("src");
    let text = element_text(url);
    let cut: int = next_mark(url, '"', 0);
    assert forall|i: int| 0 <= i < 44 implies text[i] == ELEMENT_HEAD@[i] by {}
    assert forall|i: int| 44 <= i < 44 + url.len() implies text[i] == url[i - 44] by {}
    let tail: int = 44 + url.len() as int;
    assert(text[tail] == ELEMENT_TAIL@[0]);
    lemma_enclosed_between(text, '"', 0, 43, 44 + cut);
    assert(text.subrange(39, 42) =~= ELEMENT_HEAD@.subrange(39, 42));
    assert(opens_attribute(text, "src"@, 44));
    assert(text.subrange(44, 44 + cut) =~= url.subrange(0, cut));
    if cut < url.len() {
        assert(url[cut] == '"');
        assert(url.subrange(0, cut).len() < url.len());
    } else {
        assert(url.subrange(0, cut) =~= url);
    }
}

/// The element's markup carries the address it was made for: for an address
/// without a double quote, the markup gives `src` that address, character by
/// character, and gives `style` and `allowfullscreen` their fixed values,
/// whatever the address.
pub proof fn lemma_element_attributes(url: Seq<char>)
    requires
        free_of(url, '"'),
    ensures
        attribute(element_text(url), "src"@) == Some(url),
        attribute(element_text(url), "style"@) == Some(ELEMENT_STYLE@),
        attribute(element_text(url), "allowfullscreen"@) == Some(ELEMENT_FULLSCREEN@),
{
    lemma_element_head_text();
    lemma_element_tail_text();
    reveal_strlit("src");
    reveal_strlit("style");
    reveal_strlit("allowfullscreen");
    let text = element_text(url);
    let tail: int = 44int + url.len();
    assert forall|i: int| 0 <= i < 44 implies text[i] == ELEMENT_HEAD@[i] by {}
    assert forall|i: int| 44 <= i < tail implies text[i] == url[i - 44] by {}
    assert forall|i: int| tail <= i < text.len() implies text[i] == ELEMENT_TAIL@[i - tail] by {}
    // The three quoted values, in the order in which they are read.
    lemma_enclosed_between(text, '"', 0, 43, tail);
    lemma_enclosed_between(text, '"', tail + 1, tail + 25, tail + 63);
    lemma_enclosed_between(text, '"', tail + 64, tail + 97, tail + 103);
    let src = "src"@;
    let style = "style"@;
    let fullscreen = "allowfullscreen"@;
    // What opens each of them.
    assert(text.subrange(39, 42) =~= ELEMENT_HEAD@.subrange(39, 42));
    assert(text.subrange(tail + 19, tail + 24) =~= ELEMENT_TAIL@.subrange(19, 24));
    assert(text.subrange(tail + 81, tail + 96) =~= ELEMENT_TAIL@.subrange(81, 96));
    assert(opens_attribute(text, src, 44));
    assert(opens_attribute(text, style, tail + 26));
    assert(opens_attribute(text, fullscreen, tail + 98));
    assert(!opens_attribute(text, style, 44)) by {
        assert(text.subrange(37, 42)[4] == text[41]);
        assert(text.subrange(39, 42)[2] == text[41]);
    }
    assert(!opens_attribute(text, fullscreen, 44)) by {
        assert(text.subrange(27, 42)[14] == text[41]);
        assert(text.subrange(39, 42)[2] == text[41]);
    }
    assert(!opens_attribute(text, fullscreen, tail + 26)) by {
        assert(text.subrange(tail + 9, tail + 24)[14] == text[tail + 23]);
        assert(text.subrange(tail + 19, tail + 24)[4] == text[tail + 23]);
    }
    // The values themselves.
    assert(text.subrange(44, tail) =~= url);
    assert(text.subrange(tail + 26, tail + 63) =~= ELEMENT_TAIL@.subrange(26, 63));
    assert(text.subrange(tail + 98, tail + 103) =~= ELEMENT_TAIL@.subrange(98, 103));
    assert(attribute_from(text, src, 0) == Some(url));
    assert(attribute_from(text, style, tail + 1) == Some(ELEMENT_STYLE@));
    assert(attribute_from(text, style, 0) == Some(ELEMENT_STYLE@));
    assert(attribute_from(text, fullscreen, tail + 64) == Some(ELEMENT_FULLSCREEN@));
    assert(attribute_from(text, fullscreen, tail + 1) == Some(ELEMENT_FULLSCREEN@));
    assert(attribute_from(text, fullscreen, 0) == Some(ELEMENT_FULLSCREEN@));
}

/// The remount script gives the new element the address it was called with:
/// for an address with neither a double quote nor a backtick, the markup
/// that the script assigns gives `src` that address, character by character.
/// Its other attributes are the same for every address.
pub proof fn lemma_navigate_source(url: Seq<char>)
    requires
        free_of(url, '"'),
        free_of(url, '`'),
    ensures
        first_enclosed(navigate_text(url), '`') matches Some(markup) && attribute(markup, "src"@)
            == Some(url) && attribute(markup, "style"@) == Some(ELEMENT_STYLE@) && attribute(
            markup,
            "allowfullscreen"@,
        ) == Some(ELEMENT_FULLSCREEN@),
{
    lemma_navigate_assigns_element(url);
    lemma_element_attributes(url);
    assert(first_enclosed(navigate_text(url), '`') == Some(element_text(url)));
}

/// Two remount scripts differ in the address only: what stands before the
/// address and what stands after it are the same texts for every address.
pub proof fn lemma_navigate_frame(url: Seq<char>)
    ensures
        navigate_text(url).len() == 255 + url.len(),
        navigate_text(url).subrange(0, 111) == navigate_text(Seq::empty()).subrange(0, 111),
        navigate_text(url).subrange(111, 111 + url.len() as int) == url,
        navigate_text(url).subrange(111 + url.len() as int, 255 + url.len() as int) == navigate_text(
            Seq::empty(),
        ).subrange(111, 255),
{
    lemma_assign_text();
    lemma_element_head_text();
    lemma_element_tail_text();
    let empty = Seq::<char>::empty();
    let end: int = 111 + url.len() as int;
    assert(navigate_text(url).subrange(0, 111) =~= navigate_text(empty).subrange(0, 111));
    assert(navigate_text(url).subrange(111, end) =~= url);
    assert(navigate_text(url).subrange(end, end + 144) =~= navigate_text(empty).subrange(111, 255));
}

/// The three call scripts are fixed texts: each reads the query for the
/// element, the guard, its method and the call.
pub proof fn lemma_call_texts()
    ensures
        refresh_text()
            == "\n        document.querySelector('#webview-container webview')?.reload();\n    "@,
        back_text()
            == "\n        document.querySelector('#webview-container webview')?.back();\n    "@,
        forward_text()
            == "\n        document.querySelector('#webview-container webview')?.forward();\n    "@,
{
    reveal_strlit("\n        document.querySelector('#webview-container webview')");
    reveal_strlit("?.");
    reveal_strlit("();\n    ");
    reveal_strlit("reload");
    reveal_strlit("back");
    reveal_strlit("forward");
    reveal_strlit(
        "\n        document.querySelector('#webview-container webview')?.reload();\n    ",
    );
    reveal_strlit("\n        document.querySelector('#webview-container webview')?.back();\n    ");
    reveal_strlit(
        "\n        document.querySelector('#webview-container webview')?.forward();\n    ",
    );
    assert(refresh_text()
        =~= "\n        document.querySelector('#webview-container webview')?.reload();\n    "@);
    assert(back_text()
        =~= "\n        document.querySelector('#webview-container webview')?.back();\n    "@);
    assert(forward_text()
        =~= "\n        document.querySelector('#webview-container webview')?.forward();\n    "@);
}

/// Every call script guards its call: right before the method's name stands
/// the guard that skips the call where the container has no element.
pub proof fn lemma_call_is_guarded(method: Seq<char>)
    ensures
        call_text(method).len() == 71 + method.len(),
        call_text(method).subrange(0, 61) == ELEMENT_QUERY@,
        call_text(method).subrange(61, 63) == IF_PRESENT@,
        call_text(method).subrange(63, 63 + method.len() as int) == method,
        call_text(method).subrange(63 + method.len() as int, 71 + method.len() as int)
            == CALL_TAIL@,
{
    reveal_strlit("\n        document.querySelector('#webview-container webview')");
    reveal_strlit("?.");
    reveal_strlit("();\n    ");
    let text = call_text(method);
    let end: int = 63 + method.len() as int;
    assert(text.subrange(0, 61) =~= ELEMENT_QUERY@);
    assert(text.subrange(61, 63) =~= IF_PRESENT@);
    assert(text.subrange(63, end) =~= method);
    assert(text.subrange(end, end + 8) =~= CALL_TAIL@);
}

} // verus!
