use vstd::prelude::*;

verus! {

/// Text of the stylesheet script up to the opening quote of the link target.
/// The script skips insertion when the link is already in the document, so
/// running it again is harmless.
pub const STYLE_SCRIPT_HEAD: &'static str = "(function(){\n  try {\n    if (document.getElementById('aether-user-style')) { return; }\n    const head = document.head || document.getElementsByTagName('head')[0];\n    const link = document.createElement('link');\n    link.id = 'aether-user-style';\n    link.rel = 'stylesheet';\n    link.type = 'text/css';\n    link.href = '";

/// Text of the stylesheet script after the closing quote of the link target.
pub const STYLE_SCRIPT_TAIL: &'static str = "';\n    head.appendChild(link);\n  } catch (e) {\n    console.error('Inject CSS failed', e);\n  }\n})();";

/// Text of the configuration script up to the opening quote of the JSON text.
pub const CONFIG_SCRIPT_HEAD: &'static str = "(function(){\n  try {\n    window.AetherConfig = Object.freeze(JSON.parse('";

/// Text of the configuration script after the closing quote of the JSON text.
/// The event's detail is the same frozen object that the global names.
pub const CONFIG_SCRIPT_TAIL: &'static str = "'));\n    window.dispatchEvent(new CustomEvent('config', { detail: window.AetherConfig }));\n  } catch (e) { console.error('Inject config failed', e); }\n})();";

/// Characters that cannot stand bare inside a single-quoted script literal.
pub open spec fn needs_escape(c: char) -> bool {
    c == '\\' || c == '\'' || c == '\n' || c == '\r'
}

/// How one character is written inside a single-quoted script literal.
pub open spec fn escape_char(c: char) -> Seq<char> {
    if c == '\\' {
        seq!['\\', '\\']
    } else if c == '\'' {
        seq!['\\', '\'']
    } else if c == '\n' {
        seq!['\\', 'n']
    } else if c == '\r' {
        seq!['\\', 'r']
    } else {
        seq![c]
    }
}

/// `s` written character by character as the body of a single-quoted literal.
pub open spec fn escaped(s: Seq<char>) -> Seq<char>
    decreases s.len(),
{
    if s.len() == 0 {
        Seq::empty()
    } else {
        escaped(s.drop_last()) + escape_char(s.last())
    }
}

/// The escapes that `escaped` produces, as the character after the backslash.
pub open spec fn is_escape_code(c: char) -> bool {
    c == '\\' || c == '\'' || c == 'n' || c == 'r'
}

/// The character that a backslash followed by `code` stands for.
pub open spec fn unescape_code(code: char) -> char {
    if code == 'n' {
        '\n'
    } else if code == 'r' {
        '\r'
    } else {
        code
    }
}

/// `t` stays within its enclosing single-quoted literal: every backslash
/// starts one of the escapes above, and no bare quote or line break occurs.
pub open spec fn is_literal_body(t: Seq<char>) -> bool
    decreases t.len(),
{
    if t.len() == 0 {
        true
    } else if t[0] == '\\' {
        t.len() >= 2 && is_escape_code(t[1]) && is_literal_body(t.subrange(2, t.len() as int))
    } else {
        !needs_escape(t[0]) && is_literal_body(t.drop_first())
    }
}

/// The string value that the literal body `t` denotes.
pub open spec fn literal_value(t: Seq<char>) -> Seq<char>
    decreases t.len(),
{
    if t.len() == 0 {
        Seq::empty()
    } else if t[0] == '\\' && t.len() >= 2 {
        seq![unescape_code(t[1])] + literal_value(t.subrange(2, t.len() as int))
    } else {
        seq![t[0]] + literal_value(t.drop_first())
    }
}

proof fn lemma_escaped_front(c: char, s: Seq<char>)
    ensures
        escaped(seq![c] + s) == escape_char(c) + escaped(s),
    decreases s.len(),
{
    let t = seq![c] + s;
    if s.len() == 0 {
        assert(t.drop_last() =~= Seq::<char>::empty());
        assert(t.last() == c);
        assert(escaped(t.drop_last()) =~= Seq::<char>::empty());
        assert(escaped(t) =~= escape_char(c));
    } else {
        assert(t.drop_last() =~= seq![c] + s.drop_last());
        lemma_escaped_front(c, s.drop_last());
        assert(escaped(t) =~= escape_char(c) + escaped(s));
    }
}

/// Escaping keeps any string inside its literal, and the literal denotes
/// exactly `s` again: a quote in a path cannot end it early.
pub proof fn lemma_escaped_literal(s: Seq<char>)
    ensures
        is_literal_body(escaped(s)),
        literal_value(escaped(s)) == s,
    decreases s.len(),
{
    if s.len() > 0 {
        let rest = s.drop_first();
        assert(s =~= seq![s[0]] + rest);
        lemma_escaped_front(s[0], rest);
        lemma_escaped_literal(rest);
        let e = escape_char(s[0]);
        let r = escaped(rest);
        let t = e + r;
        assert(escaped(s) == t);
        if needs_escape(s[0]) {
            assert(t.subrange(2, t.len() as int) =~= r);
            assert(literal_value(t) =~= seq![s[0]] + rest);
        } else {
            assert(t.drop_first() =~= r);
            assert(literal_value(t) =~= seq![s[0]] + rest);
        }
    }
}

/// Writes `s` as the body of a single-quoted script literal.
pub fn escape_js(s: &str) -> (r: String)
    ensures
        r@ == escaped(s@),
{
    let n = s.unicode_len();
    let mut out = String::new();
    let mut i: usize = 0;
    proof {
        assert(s@.subrange(0, 0) =~= Seq::<char>::empty());
    }
    while i < n
        invariant
            n == s@.len(),
            i <= n,
            out@ == escaped(s@.subrange(0, i as int)),
        decreases n - i,
    {
        let c = s.get_char(i);
        if c == '\\' {
            proof {
                reveal_strlit("\\\\");
            }
            out.append("\\\\");
        } else if c == '\'' {
            proof {
                reveal_strlit("\\'");
            }
            out.append("\\'");
        } else if c == '\n' {
            proof {
                reveal_strlit("\\n");
            }
            out.append("\\n");
        } else if c == '\r' {
            proof {
                reveal_strlit("\\r");
            }
            out.append("\\r");
        } else {
            let one = s.substring_char(i, i + 1);
            assert(one@ =~= seq![c]);
            out.append(one);
        }
        proof {
            assert(s@.subrange(0, i + 1).drop_last() =~= s@.subrange(0, i as int));
        }
        i = i + 1;
    }
    proof {
        assert(s@.subrange(0, n as int) =~= s@);
    }
    out
}

/// The script that links the user stylesheet at `css_uri` into the document
/// head, with any error caught and logged inside the document.
pub fn stylesheet_script(css_uri: &str) -> (r: String)
    ensures
        r@ == STYLE_SCRIPT_HEAD@ + escaped(css_uri@) + STYLE_SCRIPT_TAIL@,
{
    let body = escape_js(css_uri);
    let mut out = String::new();
    out.append(STYLE_SCRIPT_HEAD);
    out.append(body.as_str());
    out.append(STYLE_SCRIPT_TAIL);
    out
}

/// The script that parses `config_json`, publishes it as a frozen global and
/// announces it with a `config` event; a parse failure is caught and logged
/// inside the document.
pub fn config_script(config_json: &str) -> (r: String)
    ensures
        r@ == CONFIG_SCRIPT_HEAD@ + escaped(config_json@) + CONFIG_SCRIPT_TAIL@,
{
    let body = escape_js(config_json);
    let mut out = String::new();
    out.append(CONFIG_SCRIPT_HEAD);
    out.append(body.as_str());
    out.append(CONFIG_SCRIPT_TAIL);
    out
}

} // verus!
