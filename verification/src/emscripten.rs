//! The imports that a module built by Emscripten expects of its host.

use crate::import_object::{
    bindings_map, distinct_keys, lemma_bindings_map_domain, lemma_bindings_map_value, Binding,
    HostFunction, ImportObject, ImportValue,
};
use vstd::prelude::*;

verus! {

/// The field names of the Emscripten environment with the value of each,
/// in the order in which they are bound.
pub open spec fn emscripten_bindings() -> Seq<(Seq<char>, ImportValue)> {
    seq![
        ("global1"@, ImportValue::Global(24)),
        ("global2"@, ImportValue::Global(50)),
        ("global3"@, ImportValue::Global(67)),
        ("printf"@, ImportValue::Func(HostFunction::Printf)),
        ("putchar"@, ImportValue::Func(HostFunction::Putchar)),
        ("___lock"@, ImportValue::Func(HostFunction::Lock)),
        ("___unlock"@, ImportValue::Func(HostFunction::Unlock)),
        ("_getenv"@, ImportValue::Func(HostFunction::Getenv)),
        ("___setErrNo"@, ImportValue::Func(HostFunction::SetErrNo)),
        ("___syscall1"@, ImportValue::Func(HostFunction::Syscall1)),
        ("___syscall3"@, ImportValue::Func(HostFunction::Syscall3)),
        ("___syscall4"@, ImportValue::Func(HostFunction::Syscall4)),
        ("___syscall5"@, ImportValue::Func(HostFunction::Syscall5)),
        ("___syscall6"@, ImportValue::Func(HostFunction::Syscall6)),
        ("___syscall54"@, ImportValue::Func(HostFunction::Syscall54)),
        ("___syscall140"@, ImportValue::Func(HostFunction::Syscall140)),
        ("___syscall145"@, ImportValue::Func(HostFunction::Syscall145)),
        ("___syscall146"@, ImportValue::Func(HostFunction::Syscall146)),
        ("___syscall221"@, ImportValue::Func(HostFunction::Syscall221)),
        ("abort"@, ImportValue::Func(HostFunction::EmAbort)),
        ("_abort"@, ImportValue::Func(HostFunction::Abort)),
        ("abortStackOverflow"@, ImportValue::Func(HostFunction::AbortStackOverflow)),
        ("abortOnCannotGrowMemory"@, ImportValue::Func(HostFunction::AbortOnCannotGrowMemory)),
        ("_emscripten_memcpy_big"@, ImportValue::Func(HostFunction::EmscriptenMemcpyBig)),
        ("enlargeMemory"@, ImportValue::Func(HostFunction::EnlargeMemory)),
        ("getTotalMemory"@, ImportValue::Func(HostFunction::GetTotalMemory)),
        ("nullFunc_ii"@, ImportValue::Func(HostFunction::NullFuncIi)),
        ("nullFunc_iii"@, ImportValue::Func(HostFunction::NullFuncIii)),
        ("nullFunc_iiii"@, ImportValue::Func(HostFunction::NullFuncIiii)),
        ("nullFunc_iiiii"@, ImportValue::Func(HostFunction::NullFuncIiiii)),
        ("nullFunc_iiiiii"@, ImportValue::Func(HostFunction::NullFuncIiiiii)),
        ("nullFunc_vi"@, ImportValue::Func(HostFunction::NullFuncVi)),
        ("nullFunc_vii"@, ImportValue::Func(HostFunction::NullFuncVii)),
        ("nullFunc_viii"@, ImportValue::Func(HostFunction::NullFuncViii)),
        ("nullFunc_viiii"@, ImportValue::Func(HostFunction::NullFuncViiii)),
    ]
}

/// The bindings of the field names under one module name.
pub open spec fn in_module(module: Seq<char>, fields: Seq<(Seq<char>, ImportValue)>) -> Seq<
    Binding,
> {
    Seq::new(fields.len(), |i: int| (module, fields[i].0, fields[i].1))
}

/// The place of a field name in the list of the environment, if it is one
/// of its names.
spec fn emscripten_field_index(name: Seq<char>) -> Option<int> {
    if name == "global1"@ {
        Some(0int)
    } else if name == "global2"@ {
        Some(1int)
    } else if name == "global3"@ {
        Some(2int)
    } else if name == "printf"@ {
        Some(3int)
    } else if name == "putchar"@ {
        Some(4int)
    } else if name == "___lock"@ {
        Some(5int)
    } else if name == "___unlock"@ {
        Some(6int)
    } else if name == "_getenv"@ {
        Some(7int)
    } else if name == "___setErrNo"@ {
        Some(8int)
    } else if name == "___syscall1"@ {
        Some(9int)
    } else if name == "___syscall3"@ {
        Some(10int)
    } else if name == "___syscall4"@ {
        Some(11int)
    } else if name == "___syscall5"@ {
        Some(12int)
    } else if name == "___syscall6"@ {
        Some(13int)
    } else if name == "___syscall54"@ {
        Some(14int)
    } else if name == "___syscall140"@ {
        Some(15int)
    } else if name == "___syscall145"@ {
        Some(16int)
    } else if name == "___syscall146"@ {
        Some(17int)
    } else if name == "___syscall221"@ {
        Some(18int)
    } else if name == "abort"@ {
        Some(19int)
    } else if name == "_abort"@ {
        Some(20int)
    } else if name == "abortStackOverflow"@ {
        Some(21int)
    } else if name == "abortOnCannotGrowMemory"@ {
        Some(22int)
    } else if name == "_emscripten_memcpy_big"@ {
        Some(23int)
    } else if name == "enlargeMemory"@ {
        Some(24int)
    } else if name == "getTotalMemory"@ {
        Some(25int)
    } else if name == "nullFunc_ii"@ {
        Some(26int)
    } else if name == "nullFunc_iii"@ {
        Some(27int)
    } else if name == "nullFunc_iiii"@ {
        Some(28int)
    } else if name == "nullFunc_iiiii"@ {
        Some(29int)
    } else if name == "nullFunc_iiiiii"@ {
        Some(30int)
    } else if name == "nullFunc_vi"@ {
        Some(31int)
    } else if name == "nullFunc_vii"@ {
        Some(32int)
    } else if name == "nullFunc_viii"@ {
        Some(33int)
    } else if name == "nullFunc_viiii"@ {
        Some(34int)
    } else {
        None
    }
}

/// Each field name of the environment is found at its own place. The proof
/// tells the names apart by their lengths and by single characters.
proof fn lemma_emscripten_field_places()
    ensures
        forall|i: int|
            0 <= i < emscripten_bindings().len() ==> emscripten_field_index(
                #[trigger] emscripten_bindings()[i].0,
            ) == Some(i),
{
    reveal_strlit("global1");
    reveal_strlit("global2");
    reveal_strlit("global3");
    reveal_strlit("printf");
    reveal_strlit("putchar");
    reveal_strlit("___lock");
    reveal_strlit("___unlock");
    reveal_strlit("_getenv");
    reveal_strlit("___setErrNo");
    reveal_strlit("___syscall1");
    reveal_strlit("___syscall3");
    reveal_strlit("___syscall4");
    reveal_strlit("___syscall5");
    reveal_strlit("___syscall6");
    reveal_strlit("___syscall54");
    reveal_strlit("___syscall140");
    reveal_strlit("___syscall145");
    reveal_strlit("___syscall146");
    reveal_strlit("___syscall221");
    reveal_strlit("abort");
    reveal_strlit("_abort");
    reveal_strlit("abortStackOverflow");
    reveal_strlit("abortOnCannotGrowMemory");
    reveal_strlit("_emscripten_memcpy_big");
    reveal_strlit("enlargeMemory");
    reveal_strlit("getTotalMemory");
    reveal_strlit("nullFunc_ii");
    reveal_strlit("nullFunc_iii");
    reveal_strlit("nullFunc_iiii");
    reveal_strlit("nullFunc_iiiii");
    reveal_strlit("nullFunc_iiiiii");
    reveal_strlit("nullFunc_vi");
    reveal_strlit("nullFunc_vii");
    reveal_strlit("nullFunc_viii");
    reveal_strlit("nullFunc_viiii");
    assert("global1"@.len() == 7);
    assert("global1"@[0] == 'g');
    assert("global1"@[6] == '1');
    assert("global2"@.len() == 7);
    assert("global2"@[0] == 'g');
    assert("global2"@[6] == '2');
    assert("global3"@.len() == 7);
    assert("global3"@[0] == 'g');
    assert("global3"@[6] == '3');
    assert("printf"@.len() == 6);
    assert("printf"@[0] == 'p');
    assert("putchar"@.len() == 7);
    assert("putchar"@[0] == 'p');
    assert("___lock"@.len() == 7);
    assert("___lock"@[0] == '_');
    assert("___lock"@[1] == '_');
    assert("___unlock"@.len() == 9);
    assert("_getenv"@.len() == 7);
    assert("_getenv"@[0] == '_');
    assert("_getenv"@[1] == 'g');
    assert("___setErrNo"@.len() == 11);
    assert("___setErrNo"@[0] == '_');
    assert("___setErrNo"@[4] == 'e');
    assert("___syscall1"@.len() == 11);
    assert("___syscall1"@[0] == '_');
    assert("___syscall1"@[4] == 'y');
    assert("___syscall1"@[10] == '1');
    assert("___syscall3"@.len() == 11);
    assert("___syscall3"@[0] == '_');
    assert("___syscall3"@[4] == 'y');
    assert("___syscall3"@[10] == '3');
    assert("___syscall4"@.len() == 11);
    assert("___syscall4"@[0] == '_');
    assert("___syscall4"@[4] == 'y');
    assert("___syscall4"@[10] == '4');
    assert("___syscall5"@.len() == 11);
    assert("___syscall5"@[0] == '_');
    assert("___syscall5"@[4] == 'y');
    assert("___syscall5"@[10] == '5');
    assert("___syscall6"@.len() == 11);
    assert("___syscall6"@[0] == '_');
    assert("___syscall6"@[4] == 'y');
    assert("___syscall6"@[10] == '6');
    assert("___syscall54"@.len() == 12);
    assert("___syscall54"@[0] == '_');
    assert("___syscall140"@.len() == 13);
    assert("___syscall140"@[0] == '_');
    assert("___syscall140"@[10] == '1');
    assert("___syscall140"@[12] == '0');
    assert("___syscall145"@.len() == 13);
    assert("___syscall145"@[0] == '_');
    assert("___syscall145"@[10] == '1');
    assert("___syscall145"@[12] == '5');
    assert("___syscall146"@.len() == 13);
    assert("___syscall146"@[0] == '_');
    assert("___syscall146"@[10] == '1');
    assert("___syscall146"@[12] == '6');
    assert("___syscall221"@.len() == 13);
    assert("___syscall221"@[0] == '_');
    assert("___syscall221"@[10] == '2');
    assert("abort"@.len() == 5);
    assert("_abort"@.len() == 6);
    assert("_abort"@[0] == '_');
    assert("abortStackOverflow"@.len() == 18);
    assert("abortOnCannotGrowMemory"@.len() == 23);
    assert("_emscripten_memcpy_big"@.len() == 22);
    assert("enlargeMemory"@.len() == 13);
    assert("enlargeMemory"@[0] == 'e');
    assert("getTotalMemory"@.len() == 14);
    assert("getTotalMemory"@[0] == 'g');
    assert("nullFunc_ii"@.len() == 11);
    assert("nullFunc_ii"@[0] == 'n');
    assert("nullFunc_ii"@[9] == 'i');
    assert("nullFunc_iii"@.len() == 12);
    assert("nullFunc_iii"@[0] == 'n');
    assert("nullFunc_iii"@[9] == 'i');
    assert("nullFunc_iiii"@.len() == 13);
    assert("nullFunc_iiii"@[0] == 'n');
    assert("nullFunc_iiii"@[9] == 'i');
    assert("nullFunc_iiiii"@.len() == 14);
    assert("nullFunc_iiiii"@[0] == 'n');
    assert("nullFunc_iiiii"@[9] == 'i');
    assert("nullFunc_iiiiii"@.len() == 15);
    assert("nullFunc_vi"@.len() == 11);
    assert("nullFunc_vi"@[0] == 'n');
    assert("nullFunc_vi"@[9] == 'v');
    assert("nullFunc_vii"@.len() == 12);
    assert("nullFunc_vii"@[0] == 'n');
    assert("nullFunc_vii"@[9] == 'v');
    assert("nullFunc_viii"@.len() == 13);
    assert("nullFunc_viii"@[0] == 'n');
    assert("nullFunc_viii"@[9] == 'v');
    assert("nullFunc_viiii"@.len() == 14);
    assert("nullFunc_viiii"@[0] == 'n');
    assert("nullFunc_viiii"@[9] == 'v');
    let fields = emscripten_bindings();
    assert(emscripten_field_index(fields[0].0) == Some(0int));
    assert(emscripten_field_index(fields[1].0) == Some(1int));
    assert(emscripten_field_index(fields[2].0) == Some(2int));
    assert(emscripten_field_index(fields[3].0) == Some(3int));
    assert(emscripten_field_index(fields[4].0) == Some(4int));
    assert(emscripten_field_index(fields[5].0) == Some(5int));
    assert(emscripten_field_index(fields[6].0) == Some(6int));
    assert(emscripten_field_index(fields[7].0) == Some(7int));
    assert(emscripten_field_index(fields[8].0) == Some(8int));
    assert(emscripten_field_index(fields[9].0) == Some(9int));
    assert(emscripten_field_index(fields[10].0) == Some(10int));
    assert(emscripten_field_index(fields[11].0) == Some(11int));
    assert(emscripten_field_index(fields[12].0) == Some(12int));
    assert(emscripten_field_index(fields[13].0) == Some(13int));
    assert(emscripten_field_index(fields[14].0) == Some(14int));
    assert(emscripten_field_index(fields[15].0) == Some(15int));
    assert(emscripten_field_index(fields[16].0) == Some(16int));
    assert(emscripten_field_index(fields[17].0) == Some(17int));
    assert(emscripten_field_index(fields[18].0) == Some(18int));
    assert(emscripten_field_index(fields[19].0) == Some(19int));
    assert(emscripten_field_index(fields[20].0) == Some(20int));
    assert(emscripten_field_index(fields[21].0) == Some(21int));
    assert(emscripten_field_index(fields[22].0) == Some(22int));
    assert(emscripten_field_index(fields[23].0) == Some(23int));
    assert(emscripten_field_index(fields[24].0) == Some(24int));
    assert(emscripten_field_index(fields[25].0) == Some(25int));
    assert(emscripten_field_index(fields[26].0) == Some(26int));
    assert(emscripten_field_index(fields[27].0) == Some(27int));
    assert(emscripten_field_index(fields[28].0) == Some(28int));
    assert(emscripten_field_index(fields[29].0) == Some(29int));
    assert(emscripten_field_index(fields[30].0) == Some(30int));
    assert(emscripten_field_index(fields[31].0) == Some(31int));
    assert(emscripten_field_index(fields[32].0) == Some(32int));
    assert(emscripten_field_index(fields[33].0) == Some(33int));
    assert(emscripten_field_index(fields[34].0) == Some(34int));
    assert forall|i: int| 0 <= i < fields.len() implies emscripten_field_index(
        #[trigger] fields[i].0,
    ) == Some(i) by {
        if i == 0 {
        }
        if i == 1 {
        }
        if i == 2 {
        }
        if i == 3 {
        }
        if i == 4 {
        }
        if i == 5 {
        }
        if i == 6 {
        }
        if i == 7 {
        }
        if i == 8 {
        }
        if i == 9 {
        }
        if i == 10 {
        }
        if i == 11 {
        }
        if i == 12 {
        }
        if i == 13 {
        }
        if i == 14 {
        }
        if i == 15 {
        }
        if i == 16 {
        }
        if i == 17 {
        }
        if i == 18 {
        }
        if i == 19 {
        }
        if i == 20 {
        }
        if i == 21 {
        }
        if i == 22 {
        }
        if i == 23 {
        }
        if i == 24 {
        }
        if i == 25 {
        }
        if i == 26 {
        }
        if i == 27 {
        }
        if i == 28 {
        }
        if i == 29 {
        }
        if i == 30 {
        }
        if i == 31 {
        }
        if i == 32 {
        }
        if i == 33 {
        }
        if i == 34 {
        }
    }
}

/// No field name of the environment stands twice in the list: no binding
/// of the environment replaces another.
pub proof fn lemma_emscripten_fields_distinct()
    ensures
        emscripten_bindings().len() == 35,
        forall|i: int, j: int|
            0 <= i < j < emscripten_bindings().len() ==> emscripten_bindings()[i].0
                != emscripten_bindings()[j].0,
        distinct_keys(in_module("env"@, emscripten_bindings())),
{
    lemma_emscripten_field_places();
    let fields = emscripten_bindings();
    assert forall|i: int, j: int| 0 <= i < j < fields.len() implies fields[i].0
        != fields[j].0 by {
        assert(emscripten_field_index(fields[i].0) == Some(i));
        assert(emscripten_field_index(fields[j].0) == Some(j));
    }
}

/// The environment binds every field of the list to its value under the
/// module name `env`, and binds nothing else.
pub proof fn lemma_emscripten_env_bindings()
    ensures
        forall|i: int|
            #![trigger emscripten_bindings()[i]]
            0 <= i < emscripten_bindings().len() ==> {
                let key = ("env"@, emscripten_bindings()[i].0);
                let env = bindings_map(in_module("env"@, emscripten_bindings()));
                env.contains_key(key) && env[key] == emscripten_bindings()[i].1
            },
        forall|key: (Seq<char>, Seq<char>)|
            #[trigger] bindings_map(in_module("env"@, emscripten_bindings())).contains_key(key)
                ==> key.0 == "env"@ && exists|i: int|
                0 <= i < emscripten_bindings().len() && #[trigger] emscripten_bindings()[i].0
                    == key.1,
{
    lemma_emscripten_fields_distinct();
    let fields = emscripten_bindings();
    let bound = in_module("env"@, fields);
    assert forall|i: int| #![trigger emscripten_bindings()[i]] 0 <= i < fields.len() implies {
        let key = ("env"@, fields[i].0);
        bindings_map(bound).contains_key(key) && bindings_map(bound)[key] == fields[i].1
    } by {
        lemma_bindings_map_value(bound, i);
    }
    assert forall|key: (Seq<char>, Seq<char>)| #[trigger]
        bindings_map(bound).contains_key(key) implies key.0 == "env"@ && exists|i: int|
        0 <= i < emscripten_bindings().len() && #[trigger] emscripten_bindings()[i].0
            == key.1 by {
        lemma_bindings_map_domain(bound, key);
        let i = choose|i: int|
            0 <= i < bound.len() && #[trigger] bound[i].0 == key.0 && bound[i].1 == key.1;
        assert(emscripten_bindings()[i].0 == key.1);
    }
}

/// The field names and values of the Emscripten environment.
fn emscripten_fields() -> (r: Vec<(&'static str, ImportValue)>)
    ensures
        r@.len() == emscripten_bindings().len(),
        forall|i: int|
            0 <= i < r@.len() ==> (#[trigger] r@[i]).0@ == emscripten_bindings()[i].0 && r@[i].1
                == emscripten_bindings()[i].1,
{
    vec![
        ("global1", ImportValue::Global(24)),
        ("global2", ImportValue::Global(50)),
        ("global3", ImportValue::Global(67)),
        ("printf", ImportValue::Func(HostFunction::Printf)),
        ("putchar", ImportValue::Func(HostFunction::Putchar)),
        ("___lock", ImportValue::Func(HostFunction::Lock)),
        ("___unlock", ImportValue::Func(HostFunction::Unlock)),
        ("_getenv", ImportValue::Func(HostFunction::Getenv)),
        ("___setErrNo", ImportValue::Func(HostFunction::SetErrNo)),
        ("___syscall1", ImportValue::Func(HostFunction::Syscall1)),
        ("___syscall3", ImportValue::Func(HostFunction::Syscall3)),
        ("___syscall4", ImportValue::Func(HostFunction::Syscall4)),
        ("___syscall5", ImportValue::Func(HostFunction::Syscall5)),
        ("___syscall6", ImportValue::Func(HostFunction::Syscall6)),
        ("___syscall54", ImportValue::Func(HostFunction::Syscall54)),
        ("___syscall140", ImportValue::Func(HostFunction::Syscall140)),
        ("___syscall145", ImportValue::Func(HostFunction::Syscall145)),
        ("___syscall146", ImportValue::Func(HostFunction::Syscall146)),
        ("___syscall221", ImportValue::Func(HostFunction::Syscall221)),
        ("abort", ImportValue::Func(HostFunction::EmAbort)),
        ("_abort", ImportValue::Func(HostFunction::Abort)),
        ("abortStackOverflow", ImportValue::Func(HostFunction::AbortStackOverflow)),
        ("abortOnCannotGrowMemory", ImportValue::Func(HostFunction::AbortOnCannotGrowMemory)),
        ("_emscripten_memcpy_big", ImportValue::Func(HostFunction::EmscriptenMemcpyBig)),
        ("enlargeMemory", ImportValue::Func(HostFunction::EnlargeMemory)),
        ("getTotalMemory", ImportValue::Func(HostFunction::GetTotalMemory)),
        ("nullFunc_ii", ImportValue::Func(HostFunction::NullFuncIi)),
        ("nullFunc_iii", ImportValue::Func(HostFunction::NullFuncIii)),
        ("nullFunc_iiii", ImportValue::Func(HostFunction::NullFuncIiii)),
        ("nullFunc_iiiii", ImportValue::Func(HostFunction::NullFuncIiiii)),
        ("nullFunc_iiiiii", ImportValue::Func(HostFunction::NullFuncIiiiii)),
        ("nullFunc_vi", ImportValue::Func(HostFunction::NullFuncVi)),
        ("nullFunc_vii", ImportValue::Func(HostFunction::NullFuncVii)),
        ("nullFunc_viii", ImportValue::Func(HostFunction::NullFuncViii)),
        ("nullFunc_viiii", ImportValue::Func(HostFunction::NullFuncViiii)),
    ]
}

/// Builds the import table of the Emscripten environment: every field of
/// [`emscripten_bindings`] bound to its value under the module name `env`,
/// and nothing else.
pub fn generate_emscripten_env<'a, 'b>() -> (import_object: ImportObject<&'a str, &'b str>)
    ensures
        import_object.wf(),
        import_object@ == bindings_map(in_module("env"@, emscripten_bindings())),
        forall|i: int|
            #![trigger emscripten_bindings()[i]]
            0 <= i < emscripten_bindings().len() ==> {
                let key = ("env"@, emscripten_bindings()[i].0);
                import_object@.contains_key(key) && import_object@[key] == emscripten_bindings()[i].1
            },
        forall|key: (Seq<char>, Seq<char>)|
            #[trigger] import_object@.contains_key(key) ==> key.0 == "env"@ && exists|i: int|
                0 <= i < emscripten_bindings().len() && #[trigger] emscripten_bindings()[i].0
                    == key.1,
{
    proof {
        lemma_emscripten_env_bindings();
    }
    let fields = emscripten_fields();
    let ghost all = in_module("env"@, emscripten_bindings());
    let mut import_object = ImportObject::new();
    let mut i: usize = 0;
    while i < fields.len()
        invariant
            i <= fields.len(),
            fields@.len() == emscripten_bindings().len(),
            forall|j: int|
                0 <= j < fields@.len() ==> (#[trigger] fields@[j]).0@ == emscripten_bindings()[j].0
                    && fields@[j].1 == emscripten_bindings()[j].1,
            all == in_module("env"@, emscripten_bindings()),
            import_object.wf(),
            import_object@ == bindings_map(all.take(i as int)),
        decreases fields.len() - i,
    {
        let field = fields[i];
        import_object.set("env", field.0, field.1);
        proof {
            let upto = all.take(i + 1);
            assert(upto.drop_last() =~= all.take(i as int));
            assert(upto.last() == ("env"@, field.0@, field.1));
        }
        i += 1;
    }
    assert(all.take(i as int) =~= all);
    import_object
}

} // verus!
