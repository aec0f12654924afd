use vstd::prelude::*;

verus! {

/// Index of the first `'\n'` in `s`, or `s.len()` when there is none.
pub open spec fn line_end(s: Seq<char>) -> int
    decreases s.len(),
{
    if s.len() == 0 {
        0
    } else if s[0] == '\n' {
        0
    } else {
        1 + line_end(s.drop_first())
    }
}

/// `line_end` lies within `s`, points at a newline unless it is the length,
/// and no newline precedes it.
pub proof fn lemma_line_end_bounds(s: Seq<char>)
    ensures
        0 <= line_end(s) <= s.len(),
        line_end(s) < s.len() ==> s[line_end(s)] == '\n',
        forall|j: int| 0 <= j < line_end(s) ==> s[j] != '\n',
    decreases s.len(),
{
    if s.len() == 0 {
    } else if s[0] == '\n' {
    } else {
        lemma_line_end_bounds(s.drop_first());
        assert forall|j: int| 0 <= j < line_end(s) implies s[j] != '\n' by {
            if j > 0 {
                assert(s.drop_first()[j - 1] != '\n');
            }
        }
    }
}

/// A scan that saw no `'\n'` before `k`, and one at `k` unless `k` is the
/// length, has found exactly `line_end`.
pub proof fn lemma_line_end_of_scan(s: Seq<char>, k: int)
    requires
        0 <= k <= s.len(),
        forall|j: int| 0 <= j < k ==> s[j] != '\n',
        k < s.len() ==> s[k] == '\n',
    ensures
        line_end(s) == k,
    decreases s.len(),
{
    if s.len() == 0 {
    } else if s[0] == '\n' {
    } else {
        assert(s[0] != '\n');
        lemma_line_end_of_scan(s.drop_first(), k - 1);
    }
}

/// One license line, wrapped: a non-empty line is surrounded by the prefix
/// and suffix, an empty line stays bare; a newline terminates either.
pub open spec fn wrapped_line(line: Seq<char>, prefix: Seq<char>, suffix: Seq<char>) -> Seq<char> {
    if line.len() == 0 {
        seq!['\n']
    } else {
        prefix + line + suffix + seq!['\n']
    }
}

/// The header block made from license text `s`: every line of `s`, wrapped,
/// with a newline after each line. Lines are delimited by `'\n'`; a line
/// terminated by `"\r\n"` loses the `'\r'`; a trailing newline does not
/// produce a final empty line.
pub open spec fn composed_header(s: Seq<char>, prefix: Seq<char>, suffix: Seq<char>) -> Seq<char>
    decreases s.len(),
    via composed_header_dec
{
    if s.len() == 0 {
        Seq::<char>::empty()
    } else {
        let end = line_end(s);
        let raw = s.subrange(0, end);
        let line = if end < s.len() && raw.len() > 0 && raw.last() == '\r' {
            raw.drop_last()
        } else {
            raw
        };
        let rest = if end < s.len() {
            s.subrange(end + 1, s.len() as int)
        } else {
            Seq::<char>::empty()
        };
        wrapped_line(line, prefix, suffix) + composed_header(rest, prefix, suffix)
    }
}

#[via_fn]
proof fn composed_header_dec(s: Seq<char>, prefix: Seq<char>, suffix: Seq<char>) {
    lemma_line_end_bounds(s);
}

/// The full composition: the wrapped header block, then `content` unchanged.
pub open spec fn compose_spec(
    license: Seq<char>,
    content: Seq<char>,
    prefix: Seq<char>,
    suffix: Seq<char>,
) -> Seq<char> {
    composed_header(license, prefix, suffix) + content
}

/// The text an absent affix stands for: an absent prefix or suffix is empty.
pub open spec fn opt_text(o: Option<&str>) -> Seq<char> {
    match o {
        Some(s) => s@,
        None => Seq::<char>::empty(),
    }
}

/// Prepends `license_text` onto `content` as a header block: every non-empty
/// line of `license_text` is wrapped in `prefix` and `suffix`, every line is
/// followed by a newline, and `content` follows unchanged.
pub fn compose(
    license_text: &str,
    content: &str,
    prefix: Option<&str>,
    suffix: Option<&str>,
) -> (r: String)
    ensures
        r@ == compose_spec(license_text@, content@, opt_text(prefix), opt_text(suffix)),
{
    let pre: &str = match prefix {
        Some(p) => p,
        None => "",
    };
    let suf: &str = match suffix {
        Some(q) => q,
        None => "",
    };
    proof {
        reveal_strlit("");
        assert(pre@ =~= opt_text(prefix));
        assert(suf@ =~= opt_text(suffix));
    }
    let ghost s: Seq<char> = license_text@;
    let n: usize = license_text.unicode_len();
    let mut out = String::new();
    let mut pos: usize = 0;
    proof {
        assert(s.subrange(0, n as int) =~= s);
    }
    while pos < n
        invariant
            n == s.len(),
            s == license_text@,
            pos <= n,
            composed_header(s, pre@, suf@) == out@ + composed_header(
                s.subrange(pos as int, n as int),
                pre@,
                suf@,
            ),
        decreases n - pos,
    {
        let ghost pos0: int = pos as int;
        let mut i: usize = pos;
        loop
            invariant
                n == s.len(),
                s == license_text@,
                pos <= i <= n,
                pos0 == pos as int,
                forall|j: int| pos0 <= j < i ==> s[j] != '\n',
            ensures
                pos0 <= i <= n,
                forall|j: int| pos0 <= j < i ==> s[j] != '\n',
                i < n ==> s[i as int] == '\n',
            decreases n - i,
        {
            if i >= n {
                break;
            }
            if license_text.get_char(i) == '\n' {
                break;
            }
            i = i + 1;
        }
        let ghost rest: Seq<char> = s.subrange(pos0, n as int);
        proof {
            assert forall|j: int| 0 <= j < i - pos0 implies rest[j] != '\n' by {
                assert(s[pos0 + j] != '\n');
            }
            lemma_line_end_of_scan(rest, i - pos0);
        }
        let terminated: bool = i < n;
        let line_last: usize = if terminated && i > pos && license_text.get_char(i - 1) == '\r' {
            i - 1
        } else {
            i
        };
        let line: &str = license_text.substring_char(pos, line_last);
        proof {
            let end = line_end(rest);
            let raw = rest.subrange(0, end);
            assert(raw =~= s.subrange(pos0, i as int));
            if terminated && i > pos && s[i - 1] == '\r' {
                assert(raw.len() > 0 && raw.last() == '\r');
                assert(raw.drop_last() =~= s.subrange(pos0, i - 1));
            } else {
                if raw.len() > 0 {
                    assert(raw.last() == s[i - 1]);
                }
            }
        }
        let ghost old_out: Seq<char> = out@;
        if !line.is_empty() {
            out.append(pre);
            out.append(line);
            out.append(suf);
        }
        out.append("\n");
        let next: usize = if terminated {
            i + 1
        } else {
            n
        };
        proof {
            reveal_strlit("\n");
            assert("\n"@ =~= seq!['\n']);
            let end = line_end(rest);
            let raw = rest.subrange(0, end);
            let stripped = if end < rest.len() && raw.len() > 0 && raw.last() == '\r' {
                raw.drop_last()
            } else {
                raw
            };
            assert(stripped == line@);
            let tail = if end < rest.len() {
                rest.subrange(end + 1, rest.len() as int)
            } else {
                Seq::<char>::empty()
            };
            assert(tail =~= s.subrange(next as int, n as int));
            assert(composed_header(rest, pre@, suf@) == wrapped_line(line@, pre@, suf@)
                + composed_header(tail, pre@, suf@));
            assert(out@ =~= old_out + wrapped_line(line@, pre@, suf@));
        }
        pos = next;
    }
    proof {
        assert(s.subrange(n as int, n as int) =~= Seq::<char>::empty());
        assert(composed_header(Seq::<char>::empty(), pre@, suf@) =~= Seq::<char>::empty());
        assert(composed_header(s, pre@, suf@) =~= out@);
    }
    out.append(content);
    proof {
        assert(out@ =~= compose_spec(license_text@, content@, opt_text(prefix), opt_text(suffix)));
    }
    out
}

/// Wrapping is line-wise: a leading line that holds no newline and does not
/// end in a carriage return is wrapped on its own -- bare when blank, inside
/// the prefix and suffix otherwise -- and the remainder composes
/// independently of it.
pub proof fn lemma_composed_header_step(
    line: Seq<char>,
    rest: Seq<char>,
    prefix: Seq<char>,
    suffix: Seq<char>,
)
    requires
        forall|j: int| 0 <= j < line.len() ==> line[j] != '\n',
        line.len() > 0 ==> line.last() != '\r',
    ensures
        composed_header(line + seq!['\n'] + rest, prefix, suffix) == wrapped_line(
            line,
            prefix,
            suffix,
        ) + composed_header(rest, prefix, suffix),
{
    let s = line + seq!['\n'] + rest;
    assert forall|j: int| 0 <= j < line.len() implies s[j] != '\n' by {
        assert(s[j] == line[j]);
    }
    lemma_line_end_of_scan(s, line.len() as int);
    assert(s.subrange(0, line.len() as int) =~= line);
    assert(s.subrange(line.len() as int + 1, s.len() as int) =~= rest);
}

/// A blank line's wrapped form is a bare newline, with no prefix or suffix
/// attached; a non-blank line's wrapped form begins with the prefix and ends
/// with the suffix and a newline.
pub proof fn lemma_wrapped_line_shape(line: Seq<char>, prefix: Seq<char>, suffix: Seq<char>)
    ensures
        line.len() == 0 ==> wrapped_line(line, prefix, suffix) == seq!['\n'],
        line.len() > 0 ==> wrapped_line(line, prefix, suffix).subrange(0, prefix.len() as int)
            == prefix,
        line.len() > 0 ==> wrapped_line(line, prefix, suffix) == prefix + line + suffix
            + seq!['\n'],
{
    if line.len() > 0 {
        assert(wrapped_line(line, prefix, suffix).subrange(0, prefix.len() as int) =~= prefix);
    }
}

/// Composition never alters the content: the composed output is at least as
/// long as `content` and ends with `content` itself, byte for byte, directly
/// after the header block.
pub proof fn lemma_content_preserved(
    license: Seq<char>,
    content: Seq<char>,
    prefix: Seq<char>,
    suffix: Seq<char>,
)
    ensures
        compose_spec(license, content, prefix, suffix).len() >= content.len(),
        compose_spec(license, content, prefix, suffix).subrange(
            compose_spec(license, content, prefix, suffix).len() - content.len(),
            compose_spec(license, content, prefix, suffix).len() as int,
        ) == content,
{
    let r = compose_spec(license, content, prefix, suffix);
    assert(r.subrange(r.len() - content.len(), r.len() as int) =~= content);
}

/// An absent prefix or suffix composes exactly as an explicitly empty one.
pub proof fn lemma_absent_affix_default(license: Seq<char>, content: Seq<char>)
    ensures
        compose_spec(
            license,
            content,
            opt_text(Option::<&str>::None),
            opt_text(Option::<&str>::None),
        ) == compose_spec(license, content, Seq::<char>::empty(), Seq::<char>::empty()),
{
}

} // verus!
