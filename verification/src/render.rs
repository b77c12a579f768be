use vstd::prelude::*;
use vstd::string::StrSliceExecFns;
use crate::hashing::hex_digit;
use crate::schemas::{
    format_version_token, hash_format_token, side_token, PackwizIndex, PackwizIndexFile,
    PackwizMetadata, PackwizMod,
};

verus! {

// ---------------------------------------------------------------------------
// String escaping
//
// Every hash in the document tree is computed over the exact bytes served,
// so serialization must be deterministic and byte-stable. The documents are
// rendered here, by hand, against a character-exact specification.
// ---------------------------------------------------------------------------

/// How one character is written inside a basic (double-quoted) string:
/// quote and backslash are escaped, control characters become a `\u`
/// escape, everything else stands as itself.
pub open spec fn spec_toml_escape_char(c: char) -> Seq<char> {
    if c == '"' {
        seq!['\\', '"']
    } else if c == '\\' {
        seq!['\\', '\\']
    } else if (c as u32) < 0x20 || c as u32 == 0x7f {
        seq!['\\', 'u', '0', '0', hex_digit(c as u32 as int / 16), hex_digit(c as u32 as int % 16)]
    } else {
        seq![c]
    }
}

/// A string written inside double quotes, character by character.
pub open spec fn spec_toml_escape(s: Seq<char>) -> Seq<char>
    decreases s.len(),
{
    if s.len() == 0 {
        Seq::empty()
    } else {
        spec_toml_escape_char(s.first()) + spec_toml_escape(s.drop_first())
    }
}

proof fn lemma_toml_escape_push(s: Seq<char>, c: char)
    ensures
        spec_toml_escape(s.push(c)) == spec_toml_escape(s) + spec_toml_escape_char(c),
    decreases s.len(),
{
    assert(spec_toml_escape(Seq::<char>::empty()) == Seq::<char>::empty());
    if s.len() == 0 {
        assert(s.push(c).first() == c);
        assert(s.push(c).drop_first() =~= Seq::<char>::empty());
        assert(spec_toml_escape(s.push(c)) == spec_toml_escape_char(c) + spec_toml_escape(
            Seq::<char>::empty(),
        ));
        assert(spec_toml_escape(s.push(c)) =~= spec_toml_escape(s) + spec_toml_escape_char(c));
    } else {
        assert(s.push(c).first() == s.first());
        assert(s.push(c).drop_first() =~= s.drop_first().push(c));
        lemma_toml_escape_push(s.drop_first(), c);
        assert(spec_toml_escape(s.push(c)) == spec_toml_escape_char(s.first()) + (
        spec_toml_escape(s.drop_first()) + spec_toml_escape_char(c)));
        assert(spec_toml_escape(s.push(c)) =~= spec_toml_escape(s) + spec_toml_escape_char(c));
    }
}

/// The lowercase hexadecimal digit of a value below sixteen.
fn hex_digit_char(n: u32) -> (c: char)
    requires
        n < 16,
    ensures
        c == hex_digit(n as int),
{
    if n == 0 {
        '0'
    } else if n == 1 {
        '1'
    } else if n == 2 {
        '2'
    } else if n == 3 {
        '3'
    } else if n == 4 {
        '4'
    } else if n == 5 {
        '5'
    } else if n == 6 {
        '6'
    } else if n == 7 {
        '7'
    } else if n == 8 {
        '8'
    } else if n == 9 {
        '9'
    } else if n == 10 {
        'a'
    } else if n == 11 {
        'b'
    } else if n == 12 {
        'c'
    } else if n == 13 {
        'd'
    } else if n == 14 {
        'e'
    } else {
        'f'
    }
}

/// Appends `s` to `out` in escaped form.
pub fn toml_escape_append(out: &mut String, s: &str)
    ensures
        final(out)@ == old(out)@ + spec_toml_escape(s@),
{
    let n = s.unicode_len();
    proof {
        assert(s@.take(0) =~= Seq::<char>::empty());
        assert(out@ =~= out@ + spec_toml_escape(s@.take(0)));
    }
    let mut i: usize = 0;
    while i < n
        invariant
            i <= n,
            n == s@.len(),
            out@ == old(out)@ + spec_toml_escape(s@.take(i as int)),
        decreases n - i,
    {
        let c = s.get_char(i);
        let code = c as u32;
        if c == '"' {
            out.push('\\');
            out.push('"');
        } else if c == '\\' {
            out.push('\\');
            out.push('\\');
        } else if code < 0x20 || code == 0x7f {
            out.push('\\');
            out.push('u');
            out.push('0');
            out.push('0');
            out.push(hex_digit_char(code / 16));
            out.push(hex_digit_char(code % 16));
        } else {
            out.push(c);
        }
        proof {
            lemma_toml_escape_push(s@.take(i as int), s@[i as int]);
            assert(s@.take(i + 1) =~= s@.take(i as int).push(s@[i as int]));
            assert(out@ =~= old(out)@ + spec_toml_escape(s@.take(i + 1)));
        }
        i += 1;
    }
    proof {
        assert(s@.take(n as int) =~= s@);
    }
}

// ---------------------------------------------------------------------------
// Mod descriptor document
// ---------------------------------------------------------------------------

/// The exact text of a mod descriptor document, from the fields it shows.
pub open spec fn spec_render_mod_fields(
    name: Seq<char>,
    filename: Seq<char>,
    side: crate::schemas::PackwizModSide,
    url: Seq<char>,
    hash_format: crate::schemas::PackwizHashFormat,
    hash: Seq<char>,
) -> Seq<char> {
    "name = \""@ + spec_toml_escape(name) + "\"\nfilename = \""@ + spec_toml_escape(filename)
        + "\"\nside = \""@ + side_token(side) + "\"\n\n[download]\nurl = \""@ + spec_toml_escape(
        url,
    ) + "\"\nhash-format = \""@ + hash_format_token(hash_format) + "\"\nhash = \""@
        + spec_toml_escape(hash) + "\"\n"@
}

/// The exact text of a mod descriptor document.
pub open spec fn spec_render_mod(m: PackwizMod) -> Seq<char> {
    spec_render_mod_fields(
        m.name@,
        m.filename@,
        m.side,
        m.download.url@,
        m.download.hash_format,
        m.download.hash@,
    )
}

/// Renders a mod descriptor document. The result is byte-stable: it is
/// these very characters whose UTF-8 bytes are hashed into the index.
pub fn render_mod(m: &PackwizMod) -> (r: String)
    ensures
        r@ == spec_render_mod(*m),
{
    let mut out = String::new();
    out.append("name = \"");
    toml_escape_append(&mut out, m.name.as_str());
    out.append("\"\nfilename = \"");
    toml_escape_append(&mut out, m.filename.as_str());
    out.append("\"\nside = \"");
    let side = m.side.as_token();
    out.append(side.as_str());
    out.append("\"\n\n[download]\nurl = \"");
    toml_escape_append(&mut out, m.download.url.as_str());
    out.append("\"\nhash-format = \"");
    let hf = m.download.hash_format.as_token();
    out.append(hf.as_str());
    out.append("\"\nhash = \"");
    toml_escape_append(&mut out, m.download.hash.as_str());
    out.append("\"\n");
    proof {
        assert(out@ =~= spec_render_mod(*m));
    }
    out
}

// ---------------------------------------------------------------------------
// Index document
// ---------------------------------------------------------------------------

/// How a boolean is written in a document.
pub open spec fn spec_bool_token(b: bool) -> Seq<char> {
    if b {
        "true"@
    } else {
        "false"@
    }
}

/// The exact text of one index entry.
pub open spec fn spec_render_index_entry(f: PackwizIndexFile) -> Seq<char> {
    "\n[[files]]\nfile = \""@ + spec_toml_escape(f.file@) + "\"\nhash = \""@ + spec_toml_escape(
        f.hash@,
    ) + "\"\nmetafile = "@ + spec_bool_token(f.metafile) + "\n"@
}

/// The exact text of the entry list of an index document.
pub open spec fn spec_render_index_entries(files: Seq<PackwizIndexFile>) -> Seq<char>
    decreases files.len(),
{
    if files.len() == 0 {
        Seq::empty()
    } else {
        spec_render_index_entry(files.first()) + spec_render_index_entries(files.drop_first())
    }
}

proof fn lemma_render_index_entries_push(files: Seq<PackwizIndexFile>, f: PackwizIndexFile)
    ensures
        spec_render_index_entries(files.push(f)) == spec_render_index_entries(files)
            + spec_render_index_entry(f),
    decreases files.len(),
{
    assert(spec_render_index_entries(Seq::<PackwizIndexFile>::empty())
        == Seq::<char>::empty());
    if files.len() == 0 {
        assert(files.push(f).first() == f);
        assert(files.push(f).drop_first() =~= Seq::<PackwizIndexFile>::empty());
        assert(spec_render_index_entries(files.push(f)) == spec_render_index_entry(f)
            + spec_render_index_entries(Seq::<PackwizIndexFile>::empty()));
        assert(spec_render_index_entries(files.push(f)) =~= spec_render_index_entries(files)
            + spec_render_index_entry(f));
    } else {
        assert(files.push(f).first() == files.first());
        assert(files.push(f).drop_first() =~= files.drop_first().push(f));
        lemma_render_index_entries_push(files.drop_first(), f);
        assert(spec_render_index_entries(files.push(f)) == spec_render_index_entry(files.first())
            + (spec_render_index_entries(files.drop_first()) + spec_render_index_entry(f)));
        assert(spec_render_index_entries(files.push(f)) =~= spec_render_index_entries(files)
            + spec_render_index_entry(f));
    }
}

/// The exact text of an index document: the hash format line, then one
/// entry per mod in walk order, or an empty list if no mod was found.
pub open spec fn spec_render_index(
    hash_format: crate::schemas::PackwizHashFormat,
    files: Seq<PackwizIndexFile>,
) -> Seq<char> {
    "hash-format = \""@ + hash_format_token(hash_format) + "\"\n"@ + (if files.len() == 0 {
        "files = []\n"@
    } else {
        spec_render_index_entries(files)
    })
}

/// Renders the index document, byte-stable, in the order of its entries.
pub fn render_index(ix: &PackwizIndex) -> (r: String)
    ensures
        r@ == spec_render_index(ix.hash_format, ix.files@),
{
    let mut out = String::new();
    out.append("hash-format = \"");
    let hf = ix.hash_format.as_token();
    out.append(hf.as_str());
    out.append("\"\n");
    let ghost head = out@;
    if ix.files.len() == 0 {
        out.append("files = []\n");
        proof {
            assert(out@ =~= spec_render_index(ix.hash_format, ix.files@));
        }
        return out;
    }
    let n = ix.files.len();
    proof {
        assert(ix.files@.take(0) =~= Seq::<PackwizIndexFile>::empty());
    }
    let mut i: usize = 0;
    while i < n
        invariant
            i <= n,
            n == ix.files@.len(),
            out@ == head + spec_render_index_entries(ix.files@.take(i as int)),
        decreases n - i,
    {
        let f = &ix.files[i];
        out.append("\n[[files]]\nfile = \"");
        toml_escape_append(&mut out, f.file.as_str());
        out.append("\"\nhash = \"");
        toml_escape_append(&mut out, f.hash.as_str());
        out.append("\"\nmetafile = ");
        if f.metafile {
            out.append("true");
        } else {
            out.append("false");
        }
        out.append("\n");
        proof {
            lemma_render_index_entries_push(ix.files@.take(i as int), ix.files@[i as int]);
            assert(ix.files@.take(i + 1) =~= ix.files@.take(i as int).push(ix.files@[i as int]));
            assert(out@ =~= head + spec_render_index_entries(ix.files@.take(i + 1)));
        }
        i += 1;
    }
    proof {
        assert(ix.files@.take(n as int) =~= ix.files@);
        assert(out@ =~= spec_render_index(ix.hash_format, ix.files@));
    }
    out
}

// ---------------------------------------------------------------------------
// Root metadata document
// ---------------------------------------------------------------------------

/// The exact text of the root metadata document.
pub open spec fn spec_render_pack(m: PackwizMetadata) -> Seq<char> {
    "name = \""@ + spec_toml_escape(m.name@) + "\"\nauthor = \""@ + spec_toml_escape(m.author@)
        + "\"\nversion = \""@ + spec_toml_escape(m.version@) + "\"\npack-format = \""@
        + format_version_token(m.pack_format) + "\"\n\n[versions]\nminecraft = \""@
        + spec_toml_escape(m.versions.minecraft@) + "\"\nfabric = \""@ + spec_toml_escape(
        m.versions.fabric@,
    ) + "\"\n\n[index]\nfile = \""@ + spec_toml_escape(m.index.file@) + "\"\nhash-format = \""@
        + hash_format_token(m.index.hash_format) + "\"\nhash = \""@ + spec_toml_escape(
        m.index.hash@,
    ) + "\"\n"@
}

/// Renders the root metadata document, byte-stable.
pub fn render_pack(m: &PackwizMetadata) -> (r: String)
    ensures
        r@ == spec_render_pack(*m),
{
    let mut out = String::new();
    out.append("name = \"");
    toml_escape_append(&mut out, m.name.as_str());
    out.append("\"\nauthor = \"");
    toml_escape_append(&mut out, m.author.as_str());
    out.append("\"\nversion = \"");
    toml_escape_append(&mut out, m.version.as_str());
    out.append("\"\npack-format = \"");
    let pf = m.pack_format.as_token();
    out.append(pf.as_str());
    out.append("\"\n\n[versions]\nminecraft = \"");
    toml_escape_append(&mut out, m.versions.minecraft.as_str());
    out.append("\"\nfabric = \"");
    toml_escape_append(&mut out, m.versions.fabric.as_str());
    out.append("\"\n\n[index]\nfile = \"");
    toml_escape_append(&mut out, m.index.file.as_str());
    out.append("\"\nhash-format = \"");
    let hf = m.index.hash_format.as_token();
    out.append(hf.as_str());
    out.append("\"\nhash = \"");
    toml_escape_append(&mut out, m.index.hash.as_str());
    out.append("\"\n");
    proof {
        assert(out@ =~= spec_render_pack(*m));
    }
    out
}

} // verus!
