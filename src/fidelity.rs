//! Field names in the output: the identifier comes from the model name and
//! the serialization tag from the wire name.

use vstd::prelude::*;

use crate::case::{camel_case, pascal_case};
use crate::go::{go_field_text, go_text_of, go_type_text};
use crate::kotlin::kotlin_type::{kotlin_struct_field_text, kotlin_text_of};
use crate::kotlin::{default_str_text, kotlin_type_text};
use crate::output::{lemma_entry_rendered, output_text};
use crate::registry::{Entries, Type};
use crate::swift::coding_keys::{coding_key_parts_text, coding_keys_parts_text};
use crate::swift::structs::{decl_parts_text, once, struct_parts_text};
use crate::swift::swift_type::{swift_struct_text, swift_text_of};
use crate::swift::swift_type_text;
use crate::text::{
    concat_map, contains, indent_text, lemma_concat_map_ends_line, lemma_contains_middle,
    lemma_contains_trans, lemma_indent_append, lemma_indent_concat_map_at, lemma_indent_ends_line,
    starts_line_after,
};
use crate::types::{Field, Struct};
use crate::typescript::{ts_field_text, ts_text_of, ts_type_text};

verus! {

/// The Go line of a field: its PascalCase model name, then its wire name in
/// the JSON tag.
pub open spec fn go_line(f: Field) -> Seq<char> {
    indent_text(go_field_text(f), "\t"@, true)
}

/// The Kotlin property of a field: its wire name in `@SerialName`, then its
/// camelCase model name.
pub open spec fn kotlin_lines(f: Field) -> Seq<char> {
    indent_text(kotlin_struct_field_text(f), "    "@, true)
}

/// The Swift property declaration of a field, by its camelCase model name.
pub open spec fn swift_decl_line(f: Field) -> Seq<char> {
    once(decl_parts_text(camel_case(f.name@), swift_type_text(f.ty)))
}

/// The Swift coding key of a field: its camelCase model name mapped to its
/// wire name.
pub open spec fn swift_key_line(f: Field) -> Seq<char> {
    once(once(coding_key_parts_text(camel_case(f.name@), f.serialized_name@)))
}

proof fn lemma_go_line(s: Struct, i: int)
    requires
        0 <= i < s.fields.len(),
    ensures
        contains(go_text_of(Type::Struct(s)), go_line(s.fields@[i])),
{
    reveal_strlit("\"`\n");
    let fs = s.fields@;
    let gf = |f: Field| go_field_text(f);
    assert forall|x: Field| (#[trigger] gf(x)).len() > 0 && gf(x).last() == '\n' by {}
    lemma_indent_concat_map_at(fs, gf, i, "\t"@);
    let gx = indent_text(concat_map(fs.subrange(0, i), gf), "\t"@, true);
    let gy = indent_text(concat_map(fs.subrange(i + 1, fs.len() as int), gf), "\t"@, true);
    assert(go_text_of(Type::Struct(s)) =~= ("type "@ + s.name@ + " struct {\n"@ + gx) + go_line(fs[i])
        + (gy + "}\n"@));
    lemma_contains_middle("type "@ + s.name@ + " struct {\n"@ + gx, go_line(fs[i]), gy + "}\n"@);
}

/// The TypeScript property of a field, keyed by its wire name.
pub open spec fn ts_line(f: Field) -> Seq<char> {
    indent_text(ts_field_text(f), "    "@, true)
}

proof fn lemma_ts_line(s: Struct, i: int)
    requires
        0 <= i < s.fields.len(),
    ensures
        contains(ts_text_of(Type::Struct(s)), ts_line(s.fields@[i])),
{
    reveal_strlit(";\n");
    let fs = s.fields@;
    let tf = |f: Field| ts_field_text(f);
    assert forall|x: Field| (#[trigger] tf(x)).len() > 0 && tf(x).last() == '\n' by {}
    lemma_indent_concat_map_at(fs, tf, i, "    "@);
    let tx = indent_text(concat_map(fs.subrange(0, i), tf), "    "@, true);
    let ty = indent_text(concat_map(fs.subrange(i + 1, fs.len() as int), tf), "    "@, true);
    assert(ts_text_of(Type::Struct(s)) =~= ("type "@ + s.name@ + " = {\n"@ + tx) + ts_line(fs[i])
        + (ty + "}\n"@));
    lemma_contains_middle("type "@ + s.name@ + " = {\n"@ + tx, ts_line(fs[i]), ty + "}\n"@);
}

proof fn lemma_kotlin_lines(s: Struct, i: int)
    requires
        0 <= i < s.fields.len(),
    ensures
        contains(kotlin_text_of(Type::Struct(s)), kotlin_lines(s.fields@[i])),
{
    reveal_strlit(",\n");
    let fs = s.fields@;
    let kf = |f: Field| kotlin_struct_field_text(f);
    assert forall|x: Field| (#[trigger] kf(x)).len() > 0 && kf(x).last() == '\n' by {}
    lemma_indent_concat_map_at(fs, kf, i, "    "@);
    let kx = indent_text(concat_map(fs.subrange(0, i), kf), "    "@, true);
    let ky = indent_text(concat_map(fs.subrange(i + 1, fs.len() as int), kf), "    "@, true);
    assert(kotlin_text_of(Type::Struct(s)) =~= ("@Serializable\ndata class "@ + s.name@ + "(\n"@
        + kx) + kotlin_lines(fs[i]) + (ky + ")\n\n"@ + "\n"@));
    lemma_contains_middle(
        "@Serializable\ndata class "@ + s.name@ + "(\n"@ + kx,
        kotlin_lines(fs[i]),
        ky + ")\n\n"@ + "\n"@,
    );
}

/// The Swift struct text, cut where its declarations and its coding keys
/// begin.
proof fn lemma_swift_struct_shape(s: Struct)
    ensures
        swift_text_of(Type::Struct(s)) == "public struct "@ + s.name@ + ": "@ + "Hashable, Codable"@
            + " {\n"@ + once(
            concat_map(
                s.fields@,
                |f: Field| decl_parts_text(camel_case(f.name@), swift_type_text(f.ty)),
            ) + swift_init_text(s),
        ) + "}\n\n"@ + "extension "@ + s.name@ + " {\n"@ + once(
            coding_keys_parts_text(
                "CodingKeys"@,
                concat_map(
                    s.fields@,
                    |f: Field| coding_key_parts_text(camel_case(f.name@), f.serialized_name@),
                ),
            ) + "\n"@,
        ) + "}\n"@ + "\n"@,
{
    let fs = s.fields@;
    let decls = concat_map(fs, |f: Field| decl_parts_text(camel_case(f.name@), swift_type_text(f.ty)));
    let params = fs.map_values(
        |f: Field| crate::swift::structs::param_parts_text(camel_case(f.name@), swift_type_text(f.ty)),
    );
    let assigns = concat_map(fs, |f: Field| crate::swift::structs::assign_parts_text(camel_case(f.name@)));
    let keys = concat_map(fs, |f: Field| coding_key_parts_text(camel_case(f.name@), f.serialized_name@));
    assert(decls + "\npublic init(\n"@ + once(crate::text::join(params, ",\n"@)) + ") {\n"@ + assigns
        + "}\n"@ =~= decls + swift_init_text(s));
    let t = swift_struct_text(s);
    assert(swift_text_of(Type::Struct(s)) == t + "\n"@);
    assert(t == struct_parts_text(
        s.name@,
        false,
        decls,
        params,
        assigns,
        keys,
        if fs.len() > 0 { camel_case(fs[0].name@) } else { Seq::empty() },
        if fs.len() > 0 { swift_type_text(fs[0].ty) } else { Seq::empty() },
    ));
}

/// The initializer of a Swift struct.
pub open spec fn swift_init_text(s: Struct) -> Seq<char> {
    "\npublic init(\n"@ + once(
        crate::text::join(
            s.fields@.map_values(
                |f: Field| crate::swift::structs::param_parts_text(camel_case(f.name@), swift_type_text(f.ty)),
            ),
            ",\n"@,
        ),
    ) + ") {\n"@ + concat_map(
        s.fields@,
        |f: Field| crate::swift::structs::assign_parts_text(camel_case(f.name@)),
    ) + "}\n"@
}

proof fn lemma_swift_decl_line(s: Struct, i: int)
    requires
        0 <= i < s.fields.len(),
    ensures
        contains(swift_text_of(Type::Struct(s)), swift_decl_line(s.fields@[i])),
{
    reveal_strlit("\n");
    lemma_swift_struct_shape(s);
    let fs = s.fields@;
    let df = |f: Field| decl_parts_text(camel_case(f.name@), swift_type_text(f.ty));
    assert forall|x: Field| (#[trigger] df(x)).len() > 0 && df(x).last() == '\n' by {}
    let decls = concat_map(fs, df);
    let rest = swift_init_text(s);
    lemma_indent_append(decls, rest, "    "@, true);
    lemma_indent_concat_map_at(fs, df, i, "    "@);
    let dx = indent_text(concat_map(fs.subrange(0, i), df), "    "@, true);
    let dy = indent_text(concat_map(fs.subrange(i + 1, fs.len() as int), df), "    "@, true);
    let head = "public struct "@ + s.name@ + ": "@ + "Hashable, Codable"@ + " {\n"@;
    let tail = swift_text_of(Type::Struct(s)).subrange(
        (head + once(decls + rest)).len() as int,
        swift_text_of(Type::Struct(s)).len() as int,
    );
    let mid = dy + indent_text(rest, "    "@, starts_line_after(decls, true));
    assert(once(decls + rest) =~= dx + swift_decl_line(fs[i]) + mid);
    assert(swift_text_of(Type::Struct(s)) =~= head + once(decls + rest) + tail);
    assert(swift_text_of(Type::Struct(s)) =~= (head + dx) + swift_decl_line(fs[i]) + (mid + tail));
    lemma_contains_middle(head + dx, swift_decl_line(fs[i]), mid + tail);
}

/// Indenting a block whose middle is itself indented lines indents each of
/// those lines twice.
proof fn lemma_indent_nested(open: Seq<char>, cx: Seq<char>, ck: Seq<char>, cy: Seq<char>, close: Seq<char>)
    requires
        open.len() > 0 && open.last() == '\n',
        cx.len() == 0 || cx.last() == '\n',
        ck.len() > 0 && ck.last() == '\n' && ck[0] != '\n',
    ensures
        once(open + (once(cx) + once(ck) + once(cy)) + close) == once(open) + once(once(cx)) + once(
            once(ck),
        ) + once(once(cy) + close),
{
    lemma_indent_ends_line(cx, "    "@, true);
    lemma_indent_ends_line(ck, "    "@, true);
    let r3 = once(cy) + close;
    let r2 = once(ck) + r3;
    let r1 = once(cx) + r2;
    lemma_indent_append(open, r1, "    "@, true);
    lemma_indent_append(once(cx), r2, "    "@, true);
    lemma_indent_append(once(ck), r3, "    "@, true);
    assert(once(ck).len() > 0);
    assert(starts_line_after(once(cx), true));
    assert(starts_line_after(once(ck), true));
    assert(open + (once(cx) + once(ck) + once(cy)) + close =~= open + r1);
}

proof fn lemma_swift_key_line(s: Struct, i: int)
    requires
        0 <= i < s.fields.len(),
    ensures
        contains(swift_text_of(Type::Struct(s)), swift_key_line(s.fields@[i])),
{
    reveal_strlit("\"\n");
    reveal_strlit(": String, CodingKey, Codable {\n");
    reveal_strlit("case ");
    lemma_swift_struct_shape(s);
    let fs = s.fields@;
    let cf = |f: Field| coding_key_parts_text(camel_case(f.name@), f.serialized_name@);
    assert forall|x: Field| (#[trigger] cf(x)).len() > 0 && cf(x).last() == '\n' by {}
    lemma_indent_concat_map_at(fs, cf, i, "    "@);
    let cx = concat_map(fs.subrange(0, i), cf);
    let cy = concat_map(fs.subrange(i + 1, fs.len() as int), cf);
    let ck = cf(fs[i]);
    lemma_concat_map_ends_line(fs.subrange(0, i), cf);
    assert(ck[0] == 'c');
    let open_keys = "enum "@ + "CodingKeys"@ + ": String, CodingKey, Codable {\n"@;
    let close = "}"@ + "\n"@;
    lemma_indent_nested(open_keys, cx, ck, cy, close);
    let keys = concat_map(fs, cf);
    let inner = open_keys + (once(cx) + once(ck) + once(cy)) + close;
    assert(coding_keys_parts_text("CodingKeys"@, keys) + "\n"@ =~= inner);
    let kx2 = once(open_keys) + once(once(cx));
    let ky2 = once(once(cy) + close);
    let whole = swift_text_of(Type::Struct(s));
    let n = whole.len() - ("}\n"@ + "\n"@).len() - once(inner).len();
    let pre = whole.subrange(0, n);
    let post = ky2 + "}\n"@ + "\n"@;
    assert(whole =~= pre + once(inner) + ("}\n"@ + "\n"@));
    assert(whole =~= (pre + kx2) + swift_key_line(fs[i]) + post);
    lemma_contains_middle(pre + kx2, swift_key_line(fs[i]), post);
}

/// Every field of a struct appears in the Go, Kotlin and Swift output under
/// an identifier made from its model name, with its wire name as the
/// serialization tag; TypeScript, which reads JSON as it is, keys the
/// property by the wire name.
pub proof fn lemma_rename_fidelity(s: Struct, i: int)
    requires
        0 <= i < s.fields.len(),
    ensures
        go_field_text(s.fields@[i]) == pascal_case(s.fields@[i].name@) + " "@ + go_type_text(
            s.fields@[i].ty,
        ) + " `json:\""@ + s.fields@[i].serialized_name@ + "\"`\n"@,
        contains(go_text_of(Type::Struct(s)), go_line(s.fields@[i])),
        kotlin_struct_field_text(s.fields@[i]) == "@SerialName(\""@ + s.fields@[i].serialized_name@
            + "\")\npublic var "@ + camel_case(s.fields@[i].name@) + ": "@ + kotlin_type_text(
            s.fields@[i].ty,
        ) + default_str_text(s.fields@[i].ty) + ",\n"@,
        contains(kotlin_text_of(Type::Struct(s)), kotlin_lines(s.fields@[i])),
        coding_key_parts_text(camel_case(s.fields@[i].name@), s.fields@[i].serialized_name@)
            == "case "@ + camel_case(s.fields@[i].name@) + " = \""@ + s.fields@[i].serialized_name@
            + "\"\n"@,
        contains(swift_text_of(Type::Struct(s)), swift_decl_line(s.fields@[i])),
        contains(swift_text_of(Type::Struct(s)), swift_key_line(s.fields@[i])),
        ts_field_text(s.fields@[i]) == s.fields@[i].serialized_name@ + ": "@ + ts_type_text(
            s.fields@[i].ty,
        ) + ";\n"@,
        contains(ts_text_of(Type::Struct(s)), ts_line(s.fields@[i])),
{
    lemma_ts_line(s, i);
    lemma_go_line(s, i);
    lemma_kotlin_lines(s, i);
    lemma_swift_decl_line(s, i);
    lemma_swift_key_line(s, i);
}

/// In the output of a whole registry, every field of a registered struct is
/// rendered with its wire name as the key: in Go, Kotlin and Swift beside an
/// identifier made from its model name, in TypeScript as the property name.
pub proof fn lemma_output_rename_fidelity(entries: Entries, k: int, s: Struct, i: int)
    requires
        0 <= k < entries.len(),
        entries[k].1 == Type::Struct(s),
        0 <= i < s.fields.len(),
    ensures
        contains(output_text(entries, |t: Type| go_text_of(t)), go_line(s.fields@[i])),
        contains(output_text(entries, |t: Type| kotlin_text_of(t)), kotlin_lines(s.fields@[i])),
        contains(output_text(entries, |t: Type| swift_text_of(t)), swift_decl_line(s.fields@[i])),
        contains(output_text(entries, |t: Type| swift_text_of(t)), swift_key_line(s.fields@[i])),
        contains(output_text(entries, |t: Type| ts_text_of(t)), ts_line(s.fields@[i])),
{
    let f = s.fields@[i];
    let ty = Type::Struct(s);
    lemma_rename_fidelity(s, i);
    lemma_entry_rendered(entries, |t: Type| go_text_of(t), k);
    lemma_contains_trans(output_text(entries, |t: Type| go_text_of(t)), go_text_of(ty), go_line(f));
    lemma_entry_rendered(entries, |t: Type| kotlin_text_of(t), k);
    lemma_contains_trans(
        output_text(entries, |t: Type| kotlin_text_of(t)),
        kotlin_text_of(ty),
        kotlin_lines(f),
    );
    lemma_entry_rendered(entries, |t: Type| swift_text_of(t), k);
    lemma_contains_trans(
        output_text(entries, |t: Type| swift_text_of(t)),
        swift_text_of(ty),
        swift_decl_line(f),
    );
    lemma_contains_trans(
        output_text(entries, |t: Type| swift_text_of(t)),
        swift_text_of(ty),
        swift_key_line(f),
    );
    lemma_entry_rendered(entries, |t: Type| ts_text_of(t), k);
    lemma_contains_trans(output_text(entries, |t: Type| ts_text_of(t)), ts_text_of(ty), ts_line(f));
}

} // verus!
