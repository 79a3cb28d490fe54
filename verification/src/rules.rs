//! The platform rules of version manifests: which libraries and which
//! conditional JVM arguments apply to a Windows client.
use vstd::prelude::*;
use crate::json::{json_get, opt_array, opt_get, opt_str, str_eq, str_in, Json};

verus! {

/// The action of a rule: its `action` text, `allow` when it has none.
pub open spec fn rule_action(rule: Json) -> Seq<char> {
    match opt_str(json_get(rule, "action"@)) {
        Some(a) => a,
        None => "allow"@,
    }
}

/// The OS name that a rule's `os` condition names, if it has a text one.
pub open spec fn rule_os_name(rule: Json) -> Option<Seq<char>> {
    opt_str(opt_get(json_get(rule, "os"@), "name"@))
}

/// A library rule that lets the library in: an `allow` rule that names
/// no OS, or that names Windows.
pub open spec fn grants_library(rule: Json) -> bool {
    &&& rule_action(rule) == "allow"@
    &&& (json_get(rule, "os"@) is None || rule_os_name(rule) == Some("windows"@))
}

/// A library rule that keeps the library out: a `disallow` rule for Windows.
pub open spec fn forbids_library(rule: Json) -> bool {
    &&& json_get(rule, "os"@) is Some
    &&& rule_action(rule) == "disallow"@
    &&& rule_os_name(rule) == Some("windows"@)
}

/// Whether a Windows client loads a library entry: an entry without a
/// `rules` array always; otherwise when no rule forbids it and some rule
/// grants it, in whatever order the rules stand.
pub open spec fn library_allowed(lib: Json) -> bool {
    match opt_array(json_get(lib, "rules"@)) {
        None => true,
        Some(rules) => rules_admit(rules),
    }
}

/// Whether a list of library rules lets the library in: none forbids it and
/// some rule grants it.
pub open spec fn rules_admit(rules: Seq<Json>) -> bool {
    &&& forall|i: int| 0 <= i < rules.len() ==> !forbids_library(#[trigger] rules[i])
    &&& exists|i: int| 0 <= i < rules.len() && grants_library(#[trigger] rules[i])
}

/// The action of a rule, with `allow` where it has none.
fn action_of(rule: &Json) -> (r: &str)
    ensures
        r@ == rule_action(*rule),
{
    match str_in(rule.get("action")) {
        Some(a) => a,
        None => "allow",
    }
}

/// Whether an optional text is `windows`.
fn is_windows(name: Option<&str>) -> (r: bool)
    ensures
        r == (match name { Some(n) => n@ == "windows"@, None => false }),
{
    match name {
        Some(n) => str_eq(n, "windows"),
        None => false,
    }
}

/// Whether a Windows client loads the library entry `lib`.
pub fn is_lib_allowed(lib: &Json) -> (r: bool)
    ensures
        r == library_allowed(*lib),
{
    let rules = match lib.get("rules") {
        Some(v) => v.as_array(),
        None => None,
    };
    let rules = match rules {
        Some(rules) => rules,
        None => return true,
    };
    let mut allowed = false;
    let n = rules.len();
    for i in 0..n
        invariant
            n == rules@.len(),
            opt_array(json_get(*lib, "rules"@)) == Some(rules@),
            forall|j: int| 0 <= j < i ==> !forbids_library(#[trigger] rules@[j]),
            allowed == exists|j: int| 0 <= j < i && grants_library(#[trigger] rules@[j]),
    {
        let rule = &rules[i];
        let action = action_of(rule);
        let os = rule.get("os");
        match os {
            Some(o) => {
                let windows = is_windows(str_in(o.get("name")));
                if str_eq(action, "allow") && windows {
                    allowed = true;
                }
                if str_eq(action, "disallow") && windows {
                    assert(forbids_library(rules@[i as int]));
                    return false;
                }
            },
            None => {
                if str_eq(action, "allow") {
                    allowed = true;
                }
            },
        }
        assert(!forbids_library(rules@[i as int]));
        assert(allowed == exists|j: int| 0 <= j < i + 1 && grants_library(#[trigger] rules@[j]));
    }
    assert(library_allowed(*lib) == rules_admit(rules@));
    allowed
}

/// The effect of a rule of a conditional argument: `Some(true)` lets the
/// argument in, `Some(false)` keeps it out, `None` leaves the verdict as it
/// was. Rules with a `features` condition have no effect.
pub open spec fn arg_rule_effect(rule: Json) -> Option<bool> {
    if json_get(rule, "features"@) is Some {
        None
    } else if json_get(rule, "os"@) is Some {
        let name = match rule_os_name(rule) {
            Some(n) => n,
            None => ""@,
        };
        if rule_action(rule) == "disallow"@ && name == "windows"@ {
            Some(false)
        } else if rule_action(rule) == "allow"@ && name == "windows"@ {
            Some(true)
        } else {
            None
        }
    } else if rule_action(rule) == "allow"@ {
        Some(true)
    } else {
        None
    }
}

/// The verdict of a list of argument rules: that of the last rule with an
/// effect, and `init` when none has one.
pub open spec fn rules_verdict(rules: Seq<Json>, init: bool) -> bool
    decreases rules.len(),
{
    if rules.len() == 0 {
        init
    } else {
        match arg_rule_effect(rules.last()) {
            Some(b) => b,
            None => rules_verdict(rules.drop_last(), init),
        }
    }
}

/// Whether a Windows client passes a conditional argument `obj`: always
/// when it has no `rules` array; otherwise by the verdict of its rules,
/// which starts from "no".
pub open spec fn arg_allowed(obj: Json) -> bool {
    match opt_array(json_get(obj, "rules"@)) {
        None => true,
        Some(rules) => rules_verdict(rules, false),
    }
}

/// Whether a Windows client passes the conditional argument `obj`.
pub fn is_arg_allowed(obj: &Json) -> (r: bool)
    ensures
        r == arg_allowed(*obj),
{
    let rules = match obj.get("rules") {
        Some(v) => v.as_array(),
        None => None,
    };
    let rules = match rules {
        Some(rules) => rules,
        None => return true,
    };
    let mut allowed = false;
    let n = rules.len();
    assert(rules@.take(0) =~= Seq::<Json>::empty());
    for i in 0..n
        invariant
            n == rules@.len(),
            allowed == rules_verdict(rules@.take(i as int), false),
    {
        let rule = &rules[i];
        assert(rules@.take(i + 1).drop_last() == rules@.take(i as int));
        assert(rules@.take(i + 1).last() == rules@[i as int]);
        let action = action_of(rule);
        let has_features = rule.get("features").is_some();
        if has_features {
        } else {
        match rule.get("os") {
            Some(o) => {
                let name = match str_in(o.get("name")) {
                    Some(n) => n,
                    None => "",
                };
                if str_eq(action, "allow") && str_eq(name, "windows") {
                    allowed = true;
                }
                if str_eq(action, "disallow") && str_eq(name, "windows") {
                    allowed = false;
                }
            },
            None => {
                if str_eq(action, "allow") {
                    allowed = true;
                }
            },
        }
        }
    }
    assert(rules@.take(n as int) == rules@);
    allowed
}

/// Law: a library entry without a `rules` array is always loaded.
pub proof fn lemma_unruled_library_loaded(lib: Json)
    requires
        opt_array(json_get(lib, "rules"@)) is None,
    ensures
        library_allowed(lib),
{
}

/// Law: a library entry with a rule that disallows Windows is never loaded,
/// wherever that rule stands among its rules.
pub proof fn lemma_windows_disallow_excludes(lib: Json, k: int)
    requires
        opt_array(json_get(lib, "rules"@)) is Some,
        0 <= k < opt_array(json_get(lib, "rules"@))->0.len(),
        forbids_library(opt_array(json_get(lib, "rules"@))->0[k]),
    ensures
        !library_allowed(lib),
{
    let rules = opt_array(json_get(lib, "rules"@))->0;
    assert(forbids_library(rules[k]));
}

/// Law: the verdict on a library does not depend on the order of its rules:
/// rule lists with the same rules, as many times each, agree.
pub proof fn lemma_library_rules_order_free(r1: Seq<Json>, r2: Seq<Json>)
    requires
        r1.to_multiset() == r2.to_multiset(),
    ensures
        rules_admit(r1) == rules_admit(r2),
{
    r1.to_multiset_ensures();
    r2.to_multiset_ensures();
    assert forall|x: Json| r1.contains(x) <==> r2.contains(x) by {
        assert(r1.to_multiset().count(x) == r2.to_multiset().count(x));
        assert(r1.contains(x) <==> r1.to_multiset().count(x) > 0);
        assert(r2.contains(x) <==> r2.to_multiset().count(x) > 0);
    }
    lemma_admit_by_contents(r1);
    lemma_admit_by_contents(r2);
}

/// Whether rules admit a library depends only on which rules the list holds.
proof fn lemma_admit_by_contents(r: Seq<Json>)
    ensures
        rules_admit(r) == ((forall|x: Json| r.contains(x) ==> !forbids_library(x)) && (exists|x: Json|
            r.contains(x) && grants_library(x))),
{
    if exists|x: Json| r.contains(x) && grants_library(x) {
        let x = choose|x: Json| r.contains(x) && grants_library(x);
        let i = choose|i: int| 0 <= i < r.len() && r[i] == x;
        assert(grants_library(r[i]));
    }
    if exists|i: int| 0 <= i < r.len() && grants_library(#[trigger] r[i]) {
        let i = choose|i: int| 0 <= i < r.len() && grants_library(#[trigger] r[i]);
        assert(r.contains(r[i]));
    }
    assert((forall|x: Json| r.contains(x) ==> !forbids_library(x)) == (forall|i: int|
        0 <= i < r.len() ==> !forbids_library(#[trigger] r[i]))) by {
        if forall|i: int| 0 <= i < r.len() ==> !forbids_library(#[trigger] r[i]) {
            assert forall|x: Json| r.contains(x) implies !forbids_library(x) by {
                let i = choose|i: int| 0 <= i < r.len() && r[i] == x;
                assert(!forbids_library(r[i]));
            }
        }
        if forall|x: Json| r.contains(x) ==> !forbids_library(x) {
            assert forall|i: int| 0 <= i < r.len() implies !forbids_library(#[trigger] r[i]) by {
                assert(r.contains(r[i]));
            }
        }
    }
}

/// The action text of a rule as the manifest writes it: `None` where there
/// is none or it is not text.
pub open spec fn written_action(rule: Json) -> Option<Seq<char>> {
    opt_str(json_get(rule, "action"@))
}

/// Whether a rule allows: its action is `allow` or missing.
pub open spec fn allows(rule: Json) -> bool {
    written_action(rule) is None || written_action(rule) == Some("allow"@)
}

/// Whether a rule has an OS condition that names Windows.
pub open spec fn names_windows(rule: Json) -> bool {
    opt_str(opt_get(json_get(rule, "os"@), "name"@)) == Some("windows"@)
}

/// Law: a library with a rules list is loaded only through a rule that
/// allows with no OS condition or allows Windows by name; an allow rule for
/// another OS, or with an OS condition that names none, grants nothing. And
/// no rule of a loaded library disallows Windows.
pub proof fn lemma_loaded_library_has_windows_grant(lib: Json)
    requires
        opt_array(json_get(lib, "rules"@)) is Some,
        library_allowed(lib),
    ensures
        exists|i: int|
            0 <= i < opt_array(json_get(lib, "rules"@))->0.len() && allows(
                #[trigger] opt_array(json_get(lib, "rules"@))->0[i],
            ) && (json_get(opt_array(json_get(lib, "rules"@))->0[i], "os"@) is None || names_windows(
                opt_array(json_get(lib, "rules"@))->0[i],
            )),
        forall|i: int|
            0 <= i < opt_array(json_get(lib, "rules"@))->0.len() ==> !(#[trigger] written_action(
                opt_array(json_get(lib, "rules"@))->0[i],
            ) == Some("disallow"@) && names_windows(opt_array(json_get(lib, "rules"@))->0[i])),
{
    reveal_strlit("allow");
    reveal_strlit("disallow");
    let rules = opt_array(json_get(lib, "rules"@))->0;
    let i = choose|i: int| 0 <= i < rules.len() && grants_library(#[trigger] rules[i]);
    assert(grants_library(rules[i]));
    assert(allows(rules[i]));
    assert forall|j: int| 0 <= j < rules.len() implies !(#[trigger] written_action(rules[j]) == Some(
        "disallow"@,
    ) && names_windows(rules[j])) by {
        assert(!forbids_library(rules[j]));
        if written_action(rules[j]) == Some("disallow"@) && names_windows(rules[j]) {
            assert(json_get(rules[j], "os"@) is Some);
            assert(rule_action(rules[j]) == "disallow"@);
        }
    }
}

/// Law: a library is loaded when some rule allows it with no OS condition or
/// allows Windows by name, and no rule disallows Windows.
pub proof fn lemma_windows_grant_loads_library(lib: Json, i: int)
    requires
        opt_array(json_get(lib, "rules"@)) is Some,
        0 <= i < opt_array(json_get(lib, "rules"@))->0.len(),
        allows(opt_array(json_get(lib, "rules"@))->0[i]),
        json_get(opt_array(json_get(lib, "rules"@))->0[i], "os"@) is None || names_windows(
            opt_array(json_get(lib, "rules"@))->0[i],
        ),
        forall|j: int|
            0 <= j < opt_array(json_get(lib, "rules"@))->0.len() ==> !(#[trigger] written_action(
                opt_array(json_get(lib, "rules"@))->0[j],
            ) == Some("disallow"@) && names_windows(opt_array(json_get(lib, "rules"@))->0[j])),
    ensures
        library_allowed(lib),
{
    reveal_strlit("allow");
    reveal_strlit("disallow");
    let rules = opt_array(json_get(lib, "rules"@))->0;
    assert(grants_library(rules[i]));
    assert forall|j: int| 0 <= j < rules.len() implies !forbids_library(#[trigger] rules[j]) by {
        if forbids_library(rules[j]) {
            assert(written_action(rules[j]) == Some("disallow"@)) by {
                if written_action(rules[j]) is None {
                    assert(rule_action(rules[j]) == "allow"@);
                }
            }
        }
    }
}

/// Whether a rule of a conditional argument has an OS condition that does
/// not name Windows (it names another OS, or none).
pub open spec fn os_not_windows(rule: Json) -> bool {
    json_get(rule, "os"@) is Some && !names_windows(rule)
}

/// Law: a rule of a conditional argument whose OS condition does not name
/// Windows, or that has a `features` condition, has no effect: arguments
/// whose rules differ by such a rule at the end are passed alike.
pub proof fn lemma_non_windows_rule_no_effect(a1: Json, a2: Json, r: Json)
    requires
        opt_array(json_get(a1, "rules"@)) is Some,
        opt_array(json_get(a2, "rules"@)) == Some(opt_array(json_get(a1, "rules"@))->0.push(r)),
        os_not_windows(r) || json_get(r, "features"@) is Some,
    ensures
        arg_allowed(a1) == arg_allowed(a2),
{
    reveal_strlit("windows");
    reveal_strlit("");
    let rs = opt_array(json_get(a1, "rules"@))->0;
    assert(rs.push(r).drop_last() == rs);
    assert(""@.len() == 0);
    assert("windows"@.len() == 7);
    assert(arg_rule_effect(r) is None);
}

/// Law: a conditional argument with a rules list none of which is a
/// feature-free rule for Windows or without an OS condition is not passed.
pub proof fn lemma_no_windows_rule_not_passed(a: Json)
    requires
        opt_array(json_get(a, "rules"@)) is Some,
        forall|i: int| 0 <= i < opt_array(json_get(a, "rules"@))->0.len() ==> (os_not_windows(
            #[trigger] opt_array(json_get(a, "rules"@))->0[i],
        ) || json_get(opt_array(json_get(a, "rules"@))->0[i], "features"@) is Some),
    ensures
        !arg_allowed(a),
{
    let rs = opt_array(json_get(a, "rules"@))->0;
    lemma_no_effect_verdict(rs);
}

/// Rules without effect leave the verdict at "no".
proof fn lemma_no_effect_verdict(rs: Seq<Json>)
    requires
        forall|i: int| 0 <= i < rs.len() ==> (os_not_windows(#[trigger] rs[i]) || json_get(rs[i], "features"@) is Some),
    ensures
        !rules_verdict(rs, false),
    decreases rs.len(),
{
    reveal_strlit("windows");
    reveal_strlit("");
    assert(""@.len() == 0);
    assert("windows"@.len() == 7);
    if rs.len() > 0 {
        assert(os_not_windows(rs[rs.len() - 1]) || json_get(rs[rs.len() - 1], "features"@) is Some);
        assert(arg_rule_effect(rs.last()) is None);
        lemma_no_effect_verdict(rs.drop_last());
    }
}

/// Law: the last feature-free rule for Windows, or without an OS condition,
/// decides: where the last rule of an argument is feature-free and names
/// Windows, the argument is passed when the rule allows and kept out when it
/// disallows; a last feature-free allow rule without an OS condition passes it.
pub proof fn lemma_last_windows_rule_decides(a: Json)
    requires
        opt_array(json_get(a, "rules"@)) is Some,
        opt_array(json_get(a, "rules"@))->0.len() > 0,
        json_get(opt_array(json_get(a, "rules"@))->0.last(), "features"@) is None,
    ensures
        ({
            let r = opt_array(json_get(a, "rules"@))->0.last();
            &&& (names_windows(r) && allows(r)) ==> arg_allowed(a)
            &&& (names_windows(r) && written_action(r) == Some("disallow"@)) ==> !arg_allowed(a)
            &&& (json_get(r, "os"@) is None && allows(r)) ==> arg_allowed(a)
        }),
{
    reveal_strlit("allow");
    reveal_strlit("disallow");
    reveal_strlit("windows");
    let rs = opt_array(json_get(a, "rules"@))->0;
    let r = rs.last();
    assert("allow"@.len() == 5);
    assert("disallow"@.len() == 8);
    if allows(r) {
        assert(rule_action(r) == "allow"@);
    }
    if written_action(r) == Some("disallow"@) {
        assert(rule_action(r) == "disallow"@);
    }
    if names_windows(r) {
        assert(json_get(r, "os"@) is Some);
        assert(rule_os_name(r) == Some("windows"@));
    }
}

} // verus!
