//! Desktop launcher entries. The entry text embeds the executable path and
//! the profile as command-line arguments, so both are escaped the way
//! launcher files demand: percent signs doubled always, and the whole value
//! quoted — with inner quotes and backslashes escaped — whenever it holds
//! whitespace, a quote or a backslash.
use crate::sanitize::sanitize_spec;
use crate::text::push_char;
use vstd::prelude::*;
use vstd::string::*;

verus! {

/// A character the launcher format counts as whitespace: the Unicode
/// white-space set.
pub open spec fn is_unicode_space(c: char) -> bool {
    ||| c as u32 == 0x9
    ||| c as u32 == 0xA
    ||| c as u32 == 0xB
    ||| c as u32 == 0xC
    ||| c as u32 == 0xD
    ||| c as u32 == 0x20
    ||| c as u32 == 0x85
    ||| c as u32 == 0xA0
    ||| c as u32 == 0x1680
    ||| (0x2000 <= c as u32 && c as u32 <= 0x200A)
    ||| c as u32 == 0x2028
    ||| c as u32 == 0x2029
    ||| c as u32 == 0x202F
    ||| c as u32 == 0x205F
    ||| c as u32 == 0x3000
}

fn unicode_space(c: char) -> (r: bool)
    ensures
        r == is_unicode_space(c),
{
    let u = c as u32;
    u == 0x9 || u == 0xA || u == 0xB || u == 0xC || u == 0xD || u == 0x20 || u == 0x85 || u == 0xA0
        || u == 0x1680 || (0x2000 <= u && u <= 0x200A) || u == 0x2028 || u == 0x2029 || u == 0x202F
        || u == 0x205F || u == 0x3000
}

/// What one character contributes under percent escaping.
pub open spec fn esc_percent_char(c: char) -> Seq<char> {
    if c == '%' {
        seq!['%', '%']
    } else {
        seq![c]
    }
}

/// The value with every percent sign doubled.
pub open spec fn percent_escape(s: Seq<char>) -> Seq<char>
    decreases s.len(),
{
    if s.len() == 0 {
        Seq::empty()
    } else {
        esc_percent_char(s[0]) + percent_escape(s.drop_first())
    }
}

proof fn lemma_percent_escape_push(s: Seq<char>, c: char)
    ensures
        percent_escape(s.push(c)) == percent_escape(s) + esc_percent_char(c),
    decreases s.len(),
{
    if s.len() == 0 {
        assert(s.push(c).drop_first() =~= Seq::<char>::empty());
        assert(s.push(c)[0] == c);
        assert(percent_escape(Seq::<char>::empty()) =~= Seq::<char>::empty());
        assert(percent_escape(s.push(c)) =~= esc_percent_char(c));
        assert(percent_escape(s) + esc_percent_char(c) =~= esc_percent_char(c));
    } else {
        assert(s.push(c).drop_first() =~= s.drop_first().push(c));
        lemma_percent_escape_push(s.drop_first(), c);
        assert(percent_escape(s.push(c)) =~= percent_escape(s) + esc_percent_char(c));
    }
}

/// What one character contributes inside a quoted value.
pub open spec fn quote_char(c: char) -> Seq<char> {
    if c == '"' || c == '\\' {
        seq!['\\', c]
    } else {
        seq![c]
    }
}

/// The value with quotes and backslashes escaped for a quoted context.
pub open spec fn backslash_quote(s: Seq<char>) -> Seq<char>
    decreases s.len(),
{
    if s.len() == 0 {
        Seq::empty()
    } else {
        quote_char(s[0]) + backslash_quote(s.drop_first())
    }
}

proof fn lemma_backslash_quote_push(s: Seq<char>, c: char)
    ensures
        backslash_quote(s.push(c)) == backslash_quote(s) + quote_char(c),
    decreases s.len(),
{
    if s.len() == 0 {
        assert(s.push(c).drop_first() =~= Seq::<char>::empty());
        assert(s.push(c)[0] == c);
        assert(backslash_quote(Seq::<char>::empty()) =~= Seq::<char>::empty());
        assert(backslash_quote(s.push(c)) =~= quote_char(c));
        assert(backslash_quote(s) + quote_char(c) =~= quote_char(c));
    } else {
        assert(s.push(c).drop_first() =~= s.drop_first().push(c));
        lemma_backslash_quote_push(s.drop_first(), c);
        assert(backslash_quote(s.push(c)) =~= backslash_quote(s) + quote_char(c));
    }
}

/// Whether the original value forces the quoted form.
pub open spec fn needs_quotes(s: Seq<char>) -> bool {
    exists|i: int|
        0 <= i < s.len() && (is_unicode_space(s[i]) || s[i] == '"' || s[i] == '\\')
}

/// The escaped form of one launcher-file argument.
pub open spec fn desktop_escape_spec(s: Seq<char>) -> Seq<char> {
    if needs_quotes(s) {
        seq!['"'] + backslash_quote(percent_escape(s)) + seq!['"']
    } else {
        percent_escape(s)
    }
}

/// Escapes one argument for the launcher entry's command line.
pub fn desktop_escape_arg(value: &str) -> (r: String)
    ensures
        r@ == desktop_escape_spec(value@),
{
    let n = value.unicode_len();
    let mut quoted = false;
    let mut i: usize = 0;
    while i < n
        invariant
            0 <= i <= n,
            n == value@.len(),
            quoted == exists|j: int|
                0 <= j < i && (is_unicode_space(value@[j]) || value@[j] == '"' || value@[j]
                    == '\\'),
        decreases n - i,
    {
        let c = value.get_char(i);
        if unicode_space(c) || c == '"' || c == '\\' {
            quoted = true;
        }
        i += 1;
    }
    let mut escaped = String::new();
    let mut i: usize = 0;
    while i < n
        invariant
            0 <= i <= n,
            n == value@.len(),
            escaped@ == percent_escape(value@.subrange(0, i as int)),
        decreases n - i,
    {
        let c = value.get_char(i);
        if c == '%' {
            push_char(&mut escaped, '%');
            push_char(&mut escaped, '%');
        } else {
            push_char(&mut escaped, c);
        }
        proof {
            lemma_percent_escape_push(value@.subrange(0, i as int), c);
            assert(value@.subrange(0, i + 1 as int) =~= value@.subrange(0, i as int).push(c));
            assert(escaped@ =~= percent_escape(value@.subrange(0, i + 1 as int)));
        }
        i += 1;
    }
    proof {
        assert(value@.subrange(0, n as int) =~= value@);
    }
    if !quoted {
        return escaped;
    }
    let mut out = String::new();
    push_char(&mut out, '"');
    let inner = escaped.as_str();
    let m = inner.unicode_len();
    let mut j: usize = 0;
    while j < m
        invariant
            0 <= j <= m,
            m == inner@.len(),
            inner@ == percent_escape(value@),
            out@ == seq!['"'] + backslash_quote(inner@.subrange(0, j as int)),
        decreases m - j,
    {
        let c = inner.get_char(j);
        if c == '"' || c == '\\' {
            push_char(&mut out, '\\');
            push_char(&mut out, c);
        } else {
            push_char(&mut out, c);
        }
        proof {
            lemma_backslash_quote_push(inner@.subrange(0, j as int), c);
            assert(inner@.subrange(0, j + 1 as int) =~= inner@.subrange(0, j as int).push(c));
            assert(out@ =~= seq!['"'] + backslash_quote(inner@.subrange(0, j + 1 as int)));
        }
        j += 1;
    }
    push_char(&mut out, '"');
    proof {
        assert(inner@.subrange(0, m as int) =~= inner@);
        assert(out@ =~= desktop_escape_spec(value@));
    }
    out
}

/// The full text of a launcher entry for a profile.
pub open spec fn desktop_entry_spec(
    exec_path: Seq<char>,
    icon_path: Seq<char>,
    profile: Seq<char>,
    autostart: bool,
) -> Seq<char> {
    "[Desktop Entry]\nType=Application\nName="@ + sanitize_spec(profile) + " (givetray)\nExec="@
        + desktop_escape_spec(exec_path) + " -c "@ + desktop_escape_spec(profile) + "\nIcon="@
        + icon_path + "\nTerminal=false\nCategories=Utility;\n"@ + if autostart {
        "X-GNOME-Autostart-enabled=true\n"@
    } else {
        Seq::<char>::empty()
    }
}

/// Builds the launcher entry: the sanitized display name, the escaped
/// executable and profile arguments, the icon path, and the autostart marker
/// when asked for.
pub fn desktop_entry(exec_path: &str, icon_path: &str, profile: &str, autostart: bool) -> (r:
    String)
    ensures
        r@ == desktop_entry_spec(exec_path@, icon_path@, profile@, autostart),
{
    let mut entry: String = "[Desktop Entry]\nType=Application\nName=".to_owned();
    let name = crate::sanitize::sanitize_profile_name(profile);
    entry.append(name.as_str());
    entry.append(" (givetray)\nExec=");
    let exec_escaped = desktop_escape_arg(exec_path);
    entry.append(exec_escaped.as_str());
    entry.append(" -c ");
    let profile_escaped = desktop_escape_arg(profile);
    entry.append(profile_escaped.as_str());
    entry.append("\nIcon=");
    entry.append(icon_path);
    entry.append("\nTerminal=false\nCategories=Utility;\n");
    if autostart {
        entry.append("X-GNOME-Autostart-enabled=true\n");
    }
    proof {
        assert(entry@ =~= desktop_entry_spec(exec_path@, icon_path@, profile@, autostart));
    }
    entry
}

} // verus!
