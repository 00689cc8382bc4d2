//! Emission: filter the validated members into the ordered name list, and
//! render the code fragment that exposes that list as a fixed-size constant
//! attached to the original type.

use vstd::prelude::*;

use crate::ast::GenericsText;
use crate::ast::GenericsTextV;
use crate::decode::Member;
use crate::decode::MemberV;

verus! {

/// The names the member list emits: every non-skipped member's name, in
/// source declaration order, skipped members removed.
pub open spec fn emitted(ms: Seq<MemberV>) -> Seq<Seq<char>>
    decreases ms.len(),
{
    if ms.len() == 0 {
        Seq::empty()
    } else if ms.last().skip {
        emitted(ms.drop_last())
    } else {
        emitted(ms.drop_last()).push(ms.last().name)
    }
}

/// Map the validated members to the list of names to emit, dropping the
/// skipped ones and keeping source order.
pub fn names_to_emit(members: &Vec<Member>) -> (r: Vec<String>)
    ensures
        r.deep_view() == emitted(members.deep_view()),
{
    let ghost msv = members.deep_view();
    let mut out: Vec<String> = Vec::new();
    let mut i: usize = 0;
    while i < members.len()
        invariant
            0 <= i <= members.len(),
            msv == members.deep_view(),
            msv.len() == members.len(),
            out.deep_view() == emitted(msv.take(i as int)),
        decreases members.len() - i,
    {
        let m = &members[i];
        assert(msv[i as int] == m@);
        assert(msv.take(i + 1).drop_last() =~= msv.take(i as int));
        assert(msv.take(i + 1).last() == msv[i as int]);
        if !m.skip {
            out.push(m.name.clone());
            assert(out.deep_view() =~= emitted(msv.take(i as int)).push(msv[i as int].name));
        }
        i = i + 1;
    }
    assert(msv.take(msv.len() as int) =~= msv);
    out
}

/// The decimal digit character for one value below ten.
pub open spec fn digit(n: nat) -> char {
    if n == 0 {
        '0'
    } else if n == 1 {
        '1'
    } else if n == 2 {
        '2'
    } else if n == 3 {
        '3'
    } else if n == 4 {
        '4'
    } else if n == 5 {
        '5'
    } else if n == 6 {
        '6'
    } else if n == 7 {
        '7'
    } else if n == 8 {
        '8'
    } else {
        '9'
    }
}

/// The usual decimal notation of a natural number, most significant digit
/// first, no leading zeros (a single zero for zero itself).
pub open spec fn dec_rep(n: nat) -> Seq<char>
    decreases n,
{
    if n < 10 {
        seq![digit(n)]
    } else {
        dec_rep(n / 10).push(digit(n % 10))
    }
}

fn digit_str(n: usize) -> (r: &'static str)
    requires
        n < 10,
    ensures
        r@ == seq![digit(n as nat)],
{
    let r: &'static str = if n == 0 {
        "0"
    } else if n == 1 {
        "1"
    } else if n == 2 {
        "2"
    } else if n == 3 {
        "3"
    } else if n == 4 {
        "4"
    } else if n == 5 {
        "5"
    } else if n == 6 {
        "6"
    } else if n == 7 {
        "7"
    } else if n == 8 {
        "8"
    } else {
        "9"
    };
    proof {
        reveal_strlit("0");
        reveal_strlit("1");
        reveal_strlit("2");
        reveal_strlit("3");
        reveal_strlit("4");
        reveal_strlit("5");
        reveal_strlit("6");
        reveal_strlit("7");
        reveal_strlit("8");
        reveal_strlit("9");
    }
    assert(r@ =~= seq![digit(n as nat)]);
    r
}

/// Render a length in decimal.
pub fn dec_string(n: usize) -> (r: String)
    ensures
        r@ == dec_rep(n as nat),
    decreases n,
{
    if n < 10 {
        let mut s = String::new();
        s.append(digit_str(n));
        assert(s@ =~= dec_rep(n as nat));
        s
    } else {
        let mut s = dec_string(n / 10);
        s.append(digit_str(n % 10));
        assert(s@ =~= dec_rep(n as nat));
        s
    }
}

/// One name as a string literal.
pub open spec fn quoted(name: Seq<char>) -> Seq<char> {
    "\""@ + name + "\""@
}

/// The comma-separated literal list placed between the brackets of the
/// emitted constant.
pub open spec fn name_list(names: Seq<Seq<char>>) -> Seq<char>
    decreases names.len(),
{
    if names.len() == 0 {
        Seq::empty()
    } else if names.len() == 1 {
        quoted(names[0])
    } else {
        name_list(names.drop_last()) + ", "@ + quoted(names.last())
    }
}

fn push_quoted(out: &mut String, name: &String)
    ensures
        final(out)@ == old(out)@ + quoted(name@),
{
    out.append("\"");
    out.append(name.as_str());
    out.append("\"");
    assert(out@ =~= old(out)@ + quoted(name@));
}

/// Render the comma-separated list of name literals.
pub fn render_name_list(names: &Vec<String>) -> (r: String)
    ensures
        r@ == name_list(names.deep_view()),
{
    let ghost nsv = names.deep_view();
    let mut out = String::new();
    let mut i: usize = 0;
    while i < names.len()
        invariant
            0 <= i <= names.len(),
            nsv == names.deep_view(),
            nsv.len() == names.len(),
            out@ == name_list(nsv.take(i as int)),
        decreases names.len() - i,
    {
        assert(nsv[i as int] == names@[i as int]@);
        assert(nsv.take(i + 1).drop_last() =~= nsv.take(i as int));
        assert(nsv.take(i + 1).last() == nsv[i as int]);
        if i > 0 {
            out.append(", ");
        }
        push_quoted(&mut out, &names[i]);
        assert(out@ =~= name_list(nsv.take(i + 1)));
        i = i + 1;
    }
    assert(nsv.take(nsv.len() as int) =~= nsv);
    out
}

/// The whole emitted fragment: an `impl` block for the declaration, marked
/// `#[automatically_derived]`, generics echoed unchanged, holding one
/// fixed-size constant of string literals whose element count is the
/// emitted list's length.
pub open spec fn fragment_text(
    ident: Seq<char>,
    generics: GenericsTextV,
    list_name: Seq<char>,
    names: Seq<Seq<char>>,
) -> Seq<char> {
    "#[automatically_derived] impl "@ + generics.impl_generics + " "@ + ident
        + generics.ty_generics + " "@ + generics.where_clause + " { const "@ + list_name
        + ": [&'static str; "@ + dec_rep(names.len()) + "] = ["@ + name_list(names) + "]; }"@
}

/// Render the emitted fragment for one declaration.
pub fn render_fragment(
    ident: &String,
    generics: &GenericsText,
    list_name: &str,
    names: &Vec<String>,
) -> (r: String)
    ensures
        r@ == fragment_text(ident@, generics@, list_name@, names.deep_view()),
{
    let mut out = String::new();
    out.append("#[automatically_derived] impl ");
    out.append(generics.impl_generics.as_str());
    out.append(" ");
    out.append(ident.as_str());
    out.append(generics.ty_generics.as_str());
    out.append(" ");
    out.append(generics.where_clause.as_str());
    out.append(" { const ");
    out.append(list_name);
    out.append(": [&'static str; ");
    let count = dec_string(names.len());
    out.append(count.as_str());
    out.append("] = [");
    let list = render_name_list(names);
    out.append(list.as_str());
    out.append("]; }");
    assert(out@ =~= fragment_text(ident@, generics@, list_name@, names.deep_view()));
    out
}

} // verus!
