use crate::parser::{
    extract_classes, extract_functions, name_of, names_of_kind, of_kind, parse_source,
    parsed_module, parses, ParseError, Statement, StatementKind,
};
use crate::text::{emit_line, emit_named_line, join_lines};
use vstd::prelude::*;
use vstd::string::*;

verus! {

/// The opening lines of the binding source, up to the module function's header.
pub open spec fn prologue_lines(module_name: Seq<char>) -> Seq<Seq<char>> {
    seq![
        "use pyo3::prelude::*;"@,
        "use pyo3::wrap_pyfunction;"@,
        ""@,
        "#[pymodule]"@,
        "fn "@ + module_name + "(_py: Python, m: &PyModule) -> PyResult<()> {"@,
    ]
}

/// The line that registers the function `name` with the module.
pub open spec fn function_registration(name: Seq<char>) -> Seq<char> {
    "    m.add_function(wrap_pyfunction!("@ + name + ", m)?)?;"@
}

/// The line that registers the class `name` with the module.
pub open spec fn class_registration(name: Seq<char>) -> Seq<char> {
    "    m.add_class::<"@ + name + ">()?;"@
}

/// The lines that close the module function.
pub open spec fn module_close_lines() -> Seq<Seq<char>> {
    seq!["    Ok(())"@, "}"@, ""@]
}

/// The header of the stand-in function `name`.
pub open spec fn function_header(name: Seq<char>) -> Seq<char> {
    "fn "@ + name + "(py: Python) -> PyResult<PyObject> {"@
}

/// The header of the stand-in struct `name`.
pub open spec fn struct_header(name: Seq<char>) -> Seq<char> {
    "struct "@ + name + " {"@
}

/// The stand-in definition of the function `name`: it returns Python's `None`.
pub open spec fn function_stub(name: Seq<char>) -> Seq<Seq<char>> {
    seq![
        "#[pyfunction]"@,
        function_header(name),
        "    // Auto-generated function implementation"@,
        "    Ok(py.None())"@,
        "}"@,
        ""@,
    ]
}

/// The stand-in of the class `name`: a struct with no fields and its constructor.
pub open spec fn class_stub(name: Seq<char>) -> Seq<Seq<char>> {
    seq![
        "#[pyclass]"@,
        struct_header(name),
        "    // Auto-generated class implementation"@,
        "}"@,
        ""@,
        "#[pymethods]"@,
        "impl "@ + name + " {"@,
        "    #[new]"@,
        "    fn new() -> Self {"@,
        "        "@ + name + "{ }"@,
        "    }"@,
        "}"@,
        ""@,
    ]
}

pub open spec fn function_stubs(names: Seq<Seq<char>>) -> Seq<Seq<char>>
    decreases names.len(),
{
    if names.len() == 0 {
        Seq::empty()
    } else {
        function_stubs(names.drop_last()) + function_stub(names.last())
    }
}

pub open spec fn class_stubs(names: Seq<Seq<char>>) -> Seq<Seq<char>>
    decreases names.len(),
{
    if names.len() == 0 {
        Seq::empty()
    } else {
        class_stubs(names.drop_last()) + class_stub(names.last())
    }
}

/// The lines of the binding source for a module with the given function and
/// class names: registrations first, functions before classes, then the stubs,
/// each group in the order of the names.
pub open spec fn binding_lines(
    functions: Seq<Seq<char>>,
    classes: Seq<Seq<char>>,
    module_name: Seq<char>,
) -> Seq<Seq<char>> {
    prologue_lines(module_name) + functions.map_values(|n: Seq<char>| function_registration(n))
        + classes.map_values(|n: Seq<char>| class_registration(n)) + module_close_lines()
        + function_stubs(functions) + class_stubs(classes)
}

/// The binding source emitted for the top-level statements `ast`.
pub open spec fn binding_source(ast: Seq<Statement>, module_name: Seq<char>) -> Seq<char> {
    join_lines(
        binding_lines(
            names_of_kind(ast, StatementKind::Function),
            names_of_kind(ast, StatementKind::Class),
            module_name,
        ),
    )
}

/// Emits native binding source for the top-level statements `ast`: the module
/// function registers every function and class, and each gets a stand-in.
pub fn transform_ast(ast: &[Statement], module_name: &str, optimize_level: u8) -> (r: String)
    ensures
        r@ == binding_source(ast@, module_name@),
{
    let functions = extract_functions(ast);
    let classes = extract_classes(ast);
    let ghost fnames = names_of_kind(ast@, StatementKind::Function);
    let ghost cnames = names_of_kind(ast@, StatementKind::Class);
    let ghost freg = |n: Seq<char>| function_registration(n);
    let ghost creg = |n: Seq<char>| class_registration(n);
    let mut out = String::new();
    let ghost mut ls: Seq<Seq<char>> = Seq::empty();
    proof {
        reveal_strlit("");
    }
    emit_line(&mut out, Ghost(ls), "use pyo3::prelude::*;");
    proof { ls = ls.push("use pyo3::prelude::*;"@); }
    emit_line(&mut out, Ghost(ls), "use pyo3::wrap_pyfunction;");
    proof { ls = ls.push("use pyo3::wrap_pyfunction;"@); }
    emit_line(&mut out, Ghost(ls), "");
    proof { ls = ls.push(""@); }
    emit_line(&mut out, Ghost(ls), "#[pymodule]");
    proof { ls = ls.push("#[pymodule]"@); }
    emit_named_line(
        &mut out,
        Ghost(ls),
        "fn ",
        module_name,
        "(_py: Python, m: &PyModule) -> PyResult<()> {",
    );
    proof {
        ls = ls.push("fn "@ + module_name@ + "(_py: Python, m: &PyModule) -> PyResult<()> {"@);
        assert(ls =~= prologue_lines(module_name@));
    }
    let ghost base = ls;
    let mut i: usize = 0;
    while i < functions.len()
        invariant
            i <= functions@.len(),
            functions@ == of_kind(ast@, StatementKind::Function),
            fnames == functions@.map_values(|x: Statement| name_of(x)),
            freg == (|n: Seq<char>| function_registration(n)),
            out@ == join_lines(ls),
            ls == base + fnames.take(i as int).map_values(freg),
        decreases functions@.len() - i,
    {
        let name = functions[i].name();
        emit_named_line(&mut out, Ghost(ls), "    m.add_function(wrap_pyfunction!(", name, ", m)?)?;");
        proof {
            let l = "    m.add_function(wrap_pyfunction!("@ + name@ + ", m)?)?;"@;
            assert(fnames[i as int] == name@);
            assert(fnames.take(i + 1).map_values(freg) =~= fnames.take(i as int).map_values(freg).push(l));
            ls = ls.push(l);
            assert(ls =~= base + fnames.take(i + 1).map_values(freg));
        }
        i += 1;
    }
    proof {
        assert(fnames.take(fnames.len() as int) =~= fnames);
    }
    let ghost base = ls;
    let mut i: usize = 0;
    while i < classes.len()
        invariant
            i <= classes@.len(),
            classes@ == of_kind(ast@, StatementKind::Class),
            cnames == classes@.map_values(|x: Statement| name_of(x)),
            creg == (|n: Seq<char>| class_registration(n)),
            out@ == join_lines(ls),
            ls == base + cnames.take(i as int).map_values(creg),
        decreases classes@.len() - i,
    {
        let name = classes[i].name();
        emit_named_line(&mut out, Ghost(ls), "    m.add_class::<", name, ">()?;");
        proof {
            let l = "    m.add_class::<"@ + name@ + ">()?;"@;
            assert(cnames[i as int] == name@);
            assert(cnames.take(i + 1).map_values(creg) =~= cnames.take(i as int).map_values(creg).push(l));
            ls = ls.push(l);
            assert(ls =~= base + cnames.take(i + 1).map_values(creg));
        }
        i += 1;
    }
    proof {
        assert(cnames.take(cnames.len() as int) =~= cnames);
    }
    emit_line(&mut out, Ghost(ls), "    Ok(())");
    proof { ls = ls.push("    Ok(())"@); }
    emit_line(&mut out, Ghost(ls), "}");
    proof { ls = ls.push("}"@); }
    emit_line(&mut out, Ghost(ls), "");
    proof { ls = ls.push(""@); }
    let ghost base = ls;
    let mut i: usize = 0;
    while i < functions.len()
        invariant
            i <= functions@.len(),
            functions@ == of_kind(ast@, StatementKind::Function),
            fnames == functions@.map_values(|x: Statement| name_of(x)),
            out@ == join_lines(ls),
            ls == base + function_stubs(fnames.take(i as int)),
        decreases functions@.len() - i,
    {
        let name = functions[i].name();
        let ghost before = ls;
        emit_line(&mut out, Ghost(ls), "#[pyfunction]");
        proof { ls = ls.push("#[pyfunction]"@); }
        emit_named_line(&mut out, Ghost(ls), "fn ", name, "(py: Python) -> PyResult<PyObject> {");
        proof { ls = ls.push("fn "@ + name@ + "(py: Python) -> PyResult<PyObject> {"@); }
        emit_line(&mut out, Ghost(ls), "    // Auto-generated function implementation");
        proof { ls = ls.push("    // Auto-generated function implementation"@); }
        emit_line(&mut out, Ghost(ls), "    Ok(py.None())");
        proof { ls = ls.push("    Ok(py.None())"@); }
        emit_line(&mut out, Ghost(ls), "}");
        proof { ls = ls.push("}"@); }
        emit_line(&mut out, Ghost(ls), "");
        proof {
            ls = ls.push(""@);
            assert(fnames[i as int] == name@);
            assert(fnames.take(i + 1).drop_last() =~= fnames.take(i as int));
            assert(ls =~= before + function_stub(name@));
            assert(ls =~= base + function_stubs(fnames.take(i + 1)));
        }
        i += 1;
    }
    let ghost base = ls;
    let mut i: usize = 0;
    while i < classes.len()
        invariant
            i <= classes@.len(),
            classes@ == of_kind(ast@, StatementKind::Class),
            cnames == classes@.map_values(|x: Statement| name_of(x)),
            out@ == join_lines(ls),
            ls == base + class_stubs(cnames.take(i as int)),
        decreases classes@.len() - i,
    {
        let name = classes[i].name();
        let ghost before = ls;
        emit_line(&mut out, Ghost(ls), "#[pyclass]");
        proof { ls = ls.push("#[pyclass]"@); }
        emit_named_line(&mut out, Ghost(ls), "struct ", name, " {");
        proof { ls = ls.push("struct "@ + name@ + " {"@); }
        emit_line(&mut out, Ghost(ls), "    // Auto-generated class implementation");
        proof { ls = ls.push("    // Auto-generated class implementation"@); }
        emit_line(&mut out, Ghost(ls), "}");
        proof { ls = ls.push("}"@); }
        emit_line(&mut out, Ghost(ls), "");
        proof { ls = ls.push(""@); }
        emit_line(&mut out, Ghost(ls), "#[pymethods]");
        proof { ls = ls.push("#[pymethods]"@); }
        emit_named_line(&mut out, Ghost(ls), "impl ", name, " {");
        proof { ls = ls.push("impl "@ + name@ + " {"@); }
        emit_line(&mut out, Ghost(ls), "    #[new]");
        proof { ls = ls.push("    #[new]"@); }
        emit_line(&mut out, Ghost(ls), "    fn new() -> Self {");
        proof { ls = ls.push("    fn new() -> Self {"@); }
        emit_named_line(&mut out, Ghost(ls), "        ", name, "{ }");
        proof { ls = ls.push("        "@ + name@ + "{ }"@); }
        emit_line(&mut out, Ghost(ls), "    }");
        proof { ls = ls.push("    }"@); }
        emit_line(&mut out, Ghost(ls), "}");
        proof { ls = ls.push("}"@); }
        emit_line(&mut out, Ghost(ls), "");
        proof {
            ls = ls.push(""@);
            assert(cnames[i as int] == name@);
            assert(cnames.take(i + 1).drop_last() =~= cnames.take(i as int));
            assert(ls =~= before + class_stub(name@));
            assert(ls =~= base + class_stubs(cnames.take(i + 1)));
        }
        i += 1;
    }
    proof {
        assert(fnames.take(fnames.len() as int) =~= fnames);
        assert(cnames.take(cnames.len() as int) =~= cnames);
        assert(ls =~= binding_lines(fnames, cnames, module_name@));
    }
    out
}

/// The release-profile directives for an optimization level: levels 0 to 2
/// name the level alone; 3 and above take level 3 with link-time optimization
/// and a single codegen unit.
pub open spec fn profile_lines(optimize_level: u8) -> Seq<Seq<char>> {
    if optimize_level == 0 {
        seq!["opt-level = 0"@]
    } else if optimize_level == 1 {
        seq!["opt-level = 1"@]
    } else if optimize_level == 2 {
        seq!["opt-level = 2"@]
    } else {
        seq!["opt-level = 3"@, "lto = true"@, "codegen-units = 1"@]
    }
}

/// The line that names the package, the library or the maturin project.
pub open spec fn name_line(module_name: Seq<char>) -> Seq<char> {
    "name = \""@ + module_name + "\""@
}

/// The lines of the build manifest for a module.
pub open spec fn manifest_lines(module_name: Seq<char>, optimize_level: u8) -> Seq<Seq<char>> {
    seq![
        "[package]"@,
        name_line(module_name),
        "version = \"0.1.0\""@,
        "edition = \"2021\""@,
        ""@,
        "[lib]"@,
        name_line(module_name),
        "crate-type = [\"cdylib\"]"@,
        ""@,
        "[package.metadata.maturin]"@,
        name_line(module_name),
        "binding = \"pyo3\""@,
        "strip = true"@,
        ""@,
        "[dependencies]"@,
        "pyo3 = { version = \"0.19\", features = [\"extension-module\"] }"@,
        ""@,
        "[profile.release]"@,
    ] + profile_lines(optimize_level)
}

/// Emits the build manifest of a module: package metadata, the binding
/// runtime as its one dependency, and a release profile chosen by
/// `optimize_level`.
pub fn generate_cargo_toml(module_name: &str, optimize_level: u8) -> (r: String)
    ensures
        r@ == join_lines(manifest_lines(module_name@, optimize_level)),
{
    let mut out = String::new();
    let ghost mut ls: Seq<Seq<char>> = Seq::empty();
    proof {
        reveal_strlit("");
    }
    emit_line(&mut out, Ghost(ls), "[package]");
    proof { ls = ls.push("[package]"@); }
    emit_named_line(&mut out, Ghost(ls), "name = \"", module_name, "\"");
    proof { ls = ls.push(name_line(module_name@)); }
    emit_line(&mut out, Ghost(ls), "version = \"0.1.0\"");
    proof { ls = ls.push("version = \"0.1.0\""@); }
    emit_line(&mut out, Ghost(ls), "edition = \"2021\"");
    proof { ls = ls.push("edition = \"2021\""@); }
    emit_line(&mut out, Ghost(ls), "");
    proof { ls = ls.push(""@); }
    emit_line(&mut out, Ghost(ls), "[lib]");
    proof { ls = ls.push("[lib]"@); }
    emit_named_line(&mut out, Ghost(ls), "name = \"", module_name, "\"");
    proof { ls = ls.push(name_line(module_name@)); }
    emit_line(&mut out, Ghost(ls), "crate-type = [\"cdylib\"]");
    proof { ls = ls.push("crate-type = [\"cdylib\"]"@); }
    emit_line(&mut out, Ghost(ls), "");
    proof { ls = ls.push(""@); }
    emit_line(&mut out, Ghost(ls), "[package.metadata.maturin]");
    proof { ls = ls.push("[package.metadata.maturin]"@); }
    emit_named_line(&mut out, Ghost(ls), "name = \"", module_name, "\"");
    proof { ls = ls.push(name_line(module_name@)); }
    emit_line(&mut out, Ghost(ls), "binding = \"pyo3\"");
    proof { ls = ls.push("binding = \"pyo3\""@); }
    emit_line(&mut out, Ghost(ls), "strip = true");
    proof { ls = ls.push("strip = true"@); }
    emit_line(&mut out, Ghost(ls), "");
    proof { ls = ls.push(""@); }
    emit_line(&mut out, Ghost(ls), "[dependencies]");
    proof { ls = ls.push("[dependencies]"@); }
    emit_line(&mut out, Ghost(ls), "pyo3 = { version = \"0.19\", features = [\"extension-module\"] }");
    proof { ls = ls.push("pyo3 = { version = \"0.19\", features = [\"extension-module\"] }"@); }
    emit_line(&mut out, Ghost(ls), "");
    proof { ls = ls.push(""@); }
    emit_line(&mut out, Ghost(ls), "[profile.release]");
    proof { ls = ls.push("[profile.release]"@); }
    let ghost base = ls;
    if optimize_level == 0 {
        emit_line(&mut out, Ghost(ls), "opt-level = 0");
        proof { ls = ls.push("opt-level = 0"@); }
    } else if optimize_level == 1 {
        emit_line(&mut out, Ghost(ls), "opt-level = 1");
        proof { ls = ls.push("opt-level = 1"@); }
    } else if optimize_level == 2 {
        emit_line(&mut out, Ghost(ls), "opt-level = 2");
        proof { ls = ls.push("opt-level = 2"@); }
    } else {
        emit_line(&mut out, Ghost(ls), "opt-level = 3");
        proof { ls = ls.push("opt-level = 3"@); }
        emit_line(&mut out, Ghost(ls), "lto = true");
        proof { ls = ls.push("lto = true"@); }
        emit_line(&mut out, Ghost(ls), "codegen-units = 1");
        proof { ls = ls.push("codegen-units = 1"@); }
    }
    proof {
        assert(ls =~= base + profile_lines(optimize_level));
        assert(ls =~= manifest_lines(module_name@, optimize_level));
    }
    out
}

/// `l` begins with `p`.
pub open spec fn starts_with(l: Seq<char>, p: Seq<char>) -> bool {
    p.len() <= l.len() && l.take(p.len() as int) == p
}

/// A line that registers a function with the module.
pub open spec fn is_function_registration(l: Seq<char>) -> bool {
    starts_with(l, "    m.add_function(wrap_pyfunction!("@)
}

/// A line that registers a class with the module.
pub open spec fn is_class_registration(l: Seq<char>) -> bool {
    starts_with(l, "    m.add_class::<"@)
}

/// The attribute line that opens a stand-in function.
pub open spec fn is_function_stub(l: Seq<char>) -> bool {
    l == "#[pyfunction]"@
}

/// The attribute line that opens a stand-in struct.
pub open spec fn is_class_stub(l: Seq<char>) -> bool {
    l == "#[pyclass]"@
}

/// A line of none of the four kinds above.
pub open spec fn is_plain(l: Seq<char>) -> bool {
    !is_function_registration(l) && !is_class_registration(l) && !is_function_stub(l)
        && !is_class_stub(l)
}

proof fn lemma_filter_none(s: Seq<Seq<char>>, p: spec_fn(Seq<char>) -> bool)
    requires
        forall|i: int| 0 <= i < s.len() ==> !p(#[trigger] s[i]),
    ensures
        s.filter(p) == Seq::<Seq<char>>::empty(),
    decreases s.len(),
{
    reveal(Seq::filter);
    if s.len() > 0 {
        lemma_filter_none(s.drop_last(), p);
    }
}

proof fn lemma_filter_all(s: Seq<Seq<char>>, p: spec_fn(Seq<char>) -> bool)
    requires
        forall|i: int| 0 <= i < s.len() ==> p(#[trigger] s[i]),
    ensures
        s.filter(p) == s,
    decreases s.len(),
{
    reveal(Seq::filter);
    if s.len() > 0 {
        lemma_filter_all(s.drop_last(), p);
        assert(s.drop_last().push(s.last()) =~= s);
    }
}

/// A line is plain when its first character, or its fifth, rules out every
/// recognised kind.
proof fn lemma_plain_by_chars(l: Seq<char>)
    requires
        l.len() == 0 || (l[0] != ' ' && l[0] != '#') || (l[0] == '#' && 4 < l.len() && l[4]
            != 'f' && l[4] != 'c') || (l[0] == ' ' && 4 < l.len() && l[4] != 'm'),
    ensures
        is_plain(l),
{
    reveal_strlit("    m.add_function(wrap_pyfunction!(");
    reveal_strlit("    m.add_class::<");
    reveal_strlit("#[pyfunction]");
    reveal_strlit("#[pyclass]");
    let fp = "    m.add_function(wrap_pyfunction!("@;
    let cp = "    m.add_class::<"@;
    if l.len() > 0 {
        if fp.len() <= l.len() {
            assert(l.take(fp.len() as int)[0] == l[0]);
            assert(l.take(fp.len() as int)[4] == l[4]);
        }
        if cp.len() <= l.len() {
            assert(l.take(cp.len() as int)[0] == l[0]);
            assert(l.take(cp.len() as int)[4] == l[4]);
        }
    }
}

/// A line that does not begin with a space registers nothing.
proof fn lemma_not_registration(l: Seq<char>)
    requires
        0 < l.len(),
        l[0] != ' ',
    ensures
        !is_function_registration(l),
        !is_class_registration(l),
{
    reveal_strlit("    m.add_function(wrap_pyfunction!(");
    reveal_strlit("    m.add_class::<");
    let fp = "    m.add_function(wrap_pyfunction!("@;
    let cp = "    m.add_class::<"@;
    if fp.len() <= l.len() {
        assert(l.take(fp.len() as int)[0] == l[0]);
    }
    if cp.len() <= l.len() {
        assert(l.take(cp.len() as int)[0] == l[0]);
    }
}

pub open spec fn function_registration_pred() -> spec_fn(Seq<char>) -> bool {
    |l: Seq<char>| is_function_registration(l)
}

pub open spec fn class_registration_pred() -> spec_fn(Seq<char>) -> bool {
    |l: Seq<char>| is_class_registration(l)
}

pub open spec fn function_stub_pred() -> spec_fn(Seq<char>) -> bool {
    |l: Seq<char>| is_function_stub(l)
}

pub open spec fn class_stub_pred() -> spec_fn(Seq<char>) -> bool {
    |l: Seq<char>| is_class_stub(l)
}

/// All four recognisers keep nothing of a run of plain lines.
proof fn lemma_plain_run(s: Seq<Seq<char>>)
    requires
        forall|i: int| 0 <= i < s.len() ==> is_plain(#[trigger] s[i]),
    ensures
        s.filter(function_registration_pred()) == Seq::<Seq<char>>::empty(),
        s.filter(class_registration_pred()) == Seq::<Seq<char>>::empty(),
        s.filter(function_stub_pred()) == Seq::<Seq<char>>::empty(),
        s.filter(class_stub_pred()) == Seq::<Seq<char>>::empty(),
{
    lemma_filter_none(s, function_registration_pred());
    lemma_filter_none(s, class_registration_pred());
    lemma_filter_none(s, function_stub_pred());
    lemma_filter_none(s, class_stub_pred());
}

proof fn lemma_prologue_plain(module_name: Seq<char>)
    ensures
        forall|i: int|
            0 <= i < prologue_lines(module_name).len() ==> is_plain(
                #[trigger] prologue_lines(module_name)[i],
            ),
{
    reveal_strlit("use pyo3::prelude::*;");
    reveal_strlit("use pyo3::wrap_pyfunction;");
    reveal_strlit("");
    reveal_strlit("#[pymodule]");
    reveal_strlit("fn ");
    let ls = prologue_lines(module_name);
    assert forall|i: int| 0 <= i < ls.len() implies is_plain(#[trigger] ls[i]) by {
        lemma_plain_by_chars(ls[i]);
    }
}

proof fn lemma_close_plain()
    ensures
        forall|i: int|
            0 <= i < module_close_lines().len() ==> is_plain(#[trigger] module_close_lines()[i]),
{
    reveal_strlit("    Ok(())");
    reveal_strlit("}");
    reveal_strlit("");
    let ls = module_close_lines();
    assert forall|i: int| 0 <= i < ls.len() implies is_plain(#[trigger] ls[i]) by {
        lemma_plain_by_chars(ls[i]);
    }
}

/// A function stub holds one opening attribute line and plain lines.
proof fn lemma_function_stub_lines(name: Seq<char>)
    ensures
        function_stub(name) == seq!["#[pyfunction]"@] + function_stub(name).drop_first(),
        is_function_stub("#[pyfunction]"@),
        !is_function_registration("#[pyfunction]"@),
        !is_class_registration("#[pyfunction]"@),
        !is_class_stub("#[pyfunction]"@),
        forall|i: int|
            0 <= i < function_stub(name).drop_first().len() ==> is_plain(
                #[trigger] function_stub(name).drop_first()[i],
            ),
{
    reveal_strlit("#[pyfunction]");
    reveal_strlit("#[pyclass]");
    reveal_strlit("fn ");
    reveal_strlit("    // Auto-generated function implementation");
    reveal_strlit("    Ok(py.None())");
    reveal_strlit("}");
    reveal_strlit("");
    let ls = function_stub(name).drop_first();
    assert(function_stub(name) =~= seq!["#[pyfunction]"@] + ls);
    lemma_not_registration("#[pyfunction]"@);
    assert("#[pyfunction]"@.len() != "#[pyclass]"@.len());
    assert forall|i: int| 0 <= i < ls.len() implies is_plain(#[trigger] ls[i]) by {
        lemma_plain_by_chars(ls[i]);
    }
}

/// A class stub holds one opening attribute line and plain lines.
proof fn lemma_class_stub_lines(name: Seq<char>)
    ensures
        class_stub(name) == seq!["#[pyclass]"@] + class_stub(name).drop_first(),
        is_class_stub("#[pyclass]"@),
        !is_function_registration("#[pyclass]"@),
        !is_class_registration("#[pyclass]"@),
        !is_function_stub("#[pyclass]"@),
        forall|i: int|
            0 <= i < class_stub(name).drop_first().len() ==> is_plain(
                #[trigger] class_stub(name).drop_first()[i],
            ),
{
    reveal_strlit("#[pyfunction]");
    reveal_strlit("#[pyclass]");
    reveal_strlit("struct ");
    reveal_strlit(" {");
    reveal_strlit("    // Auto-generated class implementation");
    reveal_strlit("}");
    reveal_strlit("");
    reveal_strlit("#[pymethods]");
    reveal_strlit("impl ");
    reveal_strlit("    #[new]");
    reveal_strlit("    fn new() -> Self {");
    reveal_strlit("        ");
    reveal_strlit("    }");
    let ls = class_stub(name).drop_first();
    assert(class_stub(name) =~= seq!["#[pyclass]"@] + ls);
    lemma_not_registration("#[pyclass]"@);
    assert("#[pyfunction]"@.len() != "#[pyclass]"@.len());
    assert forall|i: int| 0 <= i < ls.len() implies is_plain(#[trigger] ls[i]) by {
        lemma_plain_by_chars(ls[i]);
    }
}

proof fn lemma_single_filter(x: Seq<char>, p: spec_fn(Seq<char>) -> bool)
    ensures
        seq![x].filter(p) == (if p(x) { seq![x] } else { Seq::<Seq<char>>::empty() }),
{
    reveal(Seq::filter);
    assert(seq![x].drop_last() =~= Seq::<Seq<char>>::empty());
    assert(Seq::<Seq<char>>::empty().filter(p) == Seq::<Seq<char>>::empty());
}

proof fn lemma_function_stubs_filters(names: Seq<Seq<char>>)
    ensures
        function_stubs(names).filter(function_registration_pred()) == Seq::<Seq<char>>::empty(),
        function_stubs(names).filter(class_registration_pred()) == Seq::<Seq<char>>::empty(),
        function_stubs(names).filter(class_stub_pred()) == Seq::<Seq<char>>::empty(),
        function_stubs(names).filter(function_stub_pred()).len() == names.len(),
    decreases names.len(),
{
    broadcast use Seq::filter_distributes_over_add;

    if names.len() == 0 {
        reveal(Seq::filter);
    } else {
        lemma_function_stubs_filters(names.drop_last());
        let n = names.last();
        lemma_function_stub_lines(n);
        let rest = function_stub(n).drop_first();
        lemma_plain_run(rest);
        lemma_single_filter("#[pyfunction]"@, function_registration_pred());
        lemma_single_filter("#[pyfunction]"@, class_registration_pred());
        lemma_single_filter("#[pyfunction]"@, class_stub_pred());
        lemma_single_filter("#[pyfunction]"@, function_stub_pred());
        assert(function_stubs(names) == function_stubs(names.drop_last()) + (seq![
            "#[pyfunction]"@,
        ] + rest));
    }
}

proof fn lemma_class_stubs_filters(names: Seq<Seq<char>>)
    ensures
        class_stubs(names).filter(function_registration_pred()) == Seq::<Seq<char>>::empty(),
        class_stubs(names).filter(class_registration_pred()) == Seq::<Seq<char>>::empty(),
        class_stubs(names).filter(function_stub_pred()) == Seq::<Seq<char>>::empty(),
        class_stubs(names).filter(class_stub_pred()).len() == names.len(),
    decreases names.len(),
{
    broadcast use Seq::filter_distributes_over_add;

    if names.len() == 0 {
        reveal(Seq::filter);
    } else {
        lemma_class_stubs_filters(names.drop_last());
        let n = names.last();
        lemma_class_stub_lines(n);
        let rest = class_stub(n).drop_first();
        lemma_plain_run(rest);
        lemma_single_filter("#[pyclass]"@, function_registration_pred());
        lemma_single_filter("#[pyclass]"@, class_registration_pred());
        lemma_single_filter("#[pyclass]"@, class_stub_pred());
        lemma_single_filter("#[pyclass]"@, function_stub_pred());
        assert(class_stubs(names) == class_stubs(names.drop_last()) + (seq!["#[pyclass]"@] + rest));
    }
}

proof fn lemma_registration_kinds(name: Seq<char>)
    ensures
        is_function_registration(function_registration(name)),
        !is_class_registration(function_registration(name)),
        !is_function_stub(function_registration(name)),
        !is_class_stub(function_registration(name)),
        is_class_registration(class_registration(name)),
        !is_function_registration(class_registration(name)),
        !is_function_stub(class_registration(name)),
        !is_class_stub(class_registration(name)),
{
    reveal_strlit("    m.add_function(wrap_pyfunction!(");
    reveal_strlit("    m.add_class::<");
    reveal_strlit("#[pyfunction]");
    reveal_strlit("#[pyclass]");
    let fp = "    m.add_function(wrap_pyfunction!("@;
    let cp = "    m.add_class::<"@;
    let f = function_registration(name);
    let c = class_registration(name);
    assert(f.take(fp.len() as int) =~= fp);
    assert(c.take(cp.len() as int) =~= cp);
    assert(f.take(cp.len() as int)[10] == f[10]);
    assert(c[10] == 'c');
    if fp.len() <= c.len() {
        assert(c.take(fp.len() as int)[10] == c[10]);
    }
    assert(f[0] == ' ');
    assert(c[0] == ' ');
}

proof fn lemma_registration_filters(names: Seq<Seq<char>>)
    ensures
        names.map_values(|n: Seq<char>| function_registration(n)).filter(
            function_registration_pred(),
        ) == names.map_values(|n: Seq<char>| function_registration(n)),
        names.map_values(|n: Seq<char>| function_registration(n)).filter(class_registration_pred())
            == Seq::<Seq<char>>::empty(),
        names.map_values(|n: Seq<char>| function_registration(n)).filter(function_stub_pred())
            == Seq::<Seq<char>>::empty(),
        names.map_values(|n: Seq<char>| function_registration(n)).filter(class_stub_pred())
            == Seq::<Seq<char>>::empty(),
        names.map_values(|n: Seq<char>| class_registration(n)).filter(class_registration_pred())
            == names.map_values(|n: Seq<char>| class_registration(n)),
        names.map_values(|n: Seq<char>| class_registration(n)).filter(
            function_registration_pred(),
        ) == Seq::<Seq<char>>::empty(),
        names.map_values(|n: Seq<char>| class_registration(n)).filter(function_stub_pred())
            == Seq::<Seq<char>>::empty(),
        names.map_values(|n: Seq<char>| class_registration(n)).filter(class_stub_pred())
            == Seq::<Seq<char>>::empty(),
{
    let fs = names.map_values(|n: Seq<char>| function_registration(n));
    let cs = names.map_values(|n: Seq<char>| class_registration(n));
    assert forall|i: int| 0 <= i < fs.len() implies is_function_registration(#[trigger] fs[i])
        && !is_class_registration(fs[i]) && !is_function_stub(fs[i]) && !is_class_stub(fs[i]) by {
        lemma_registration_kinds(names[i]);
    }
    assert forall|i: int| 0 <= i < cs.len() implies is_class_registration(#[trigger] cs[i])
        && !is_function_registration(cs[i]) && !is_function_stub(cs[i]) && !is_class_stub(
        cs[i],
    ) by {
        lemma_registration_kinds(names[i]);
    }
    lemma_filter_all(fs, function_registration_pred());
    lemma_filter_none(fs, class_registration_pred());
    lemma_filter_none(fs, function_stub_pred());
    lemma_filter_none(fs, class_stub_pred());
    lemma_filter_all(cs, class_registration_pred());
    lemma_filter_none(cs, function_registration_pred());
    lemma_filter_none(cs, function_stub_pred());
    lemma_filter_none(cs, class_stub_pred());
}

/// The binding source for `functions` and `classes` registers each function
/// once and each class once, in the order given and under its own name, and
/// holds one stand-in function per function and one stand-in struct per
/// class: its registration lines are exactly the registrations of the names,
/// and its `#[pyfunction]` and `#[pyclass]` lines number N and M.
pub proof fn lemma_binding_counts(
    functions: Seq<Seq<char>>,
    classes: Seq<Seq<char>>,
    module_name: Seq<char>,
)
    ensures
        binding_lines(functions, classes, module_name).filter(function_registration_pred())
            == functions.map_values(|n: Seq<char>| function_registration(n)),
        binding_lines(functions, classes, module_name).filter(class_registration_pred())
            == classes.map_values(|n: Seq<char>| class_registration(n)),
        binding_lines(functions, classes, module_name).filter(function_stub_pred()).len()
            == functions.len(),
        binding_lines(functions, classes, module_name).filter(class_stub_pred()).len()
            == classes.len(),
{
    broadcast use Seq::filter_distributes_over_add;

    lemma_prologue_plain(module_name);
    lemma_plain_run(prologue_lines(module_name));
    lemma_close_plain();
    lemma_plain_run(module_close_lines());
    lemma_registration_filters(functions);
    lemma_registration_filters(classes);
    lemma_function_stubs_filters(functions);
    lemma_class_stubs_filters(classes);
    let e = Seq::<Seq<char>>::empty();
    assert(e + e =~= e);
    assert(functions.map_values(|n: Seq<char>| function_registration(n)) + e + e + e + e
        =~= functions.map_values(|n: Seq<char>| function_registration(n)));
    assert(e + e + classes.map_values(|n: Seq<char>| class_registration(n)) + e + e + e
        =~= classes.map_values(|n: Seq<char>| class_registration(n)));
}

/// The optimization directive for a level, with every level above 3 read as 3.
pub open spec fn opt_level_line(optimize_level: u8) -> Seq<char> {
    if optimize_level == 0 {
        "opt-level = 0"@
    } else if optimize_level == 1 {
        "opt-level = 1"@
    } else if optimize_level == 2 {
        "opt-level = 2"@
    } else {
        "opt-level = 3"@
    }
}

/// The manifest for level `L` holds the directive for `L` (levels above 3
/// read as 3, and give the same manifest as 3); it enables link-time
/// optimization and a single codegen unit exactly when `L >= 3`.
pub proof fn lemma_manifest_levels(module_name: Seq<char>, optimize_level: u8)
    ensures
        manifest_lines(module_name, optimize_level).contains(opt_level_line(optimize_level)),
        optimize_level >= 3 ==> manifest_lines(module_name, optimize_level) == manifest_lines(
            module_name,
            3,
        ),
        optimize_level >= 3 ==> manifest_lines(module_name, optimize_level).contains(
            "lto = true"@,
        ),
        optimize_level >= 3 ==> manifest_lines(module_name, optimize_level).contains(
            "codegen-units = 1"@,
        ),
        optimize_level < 3 ==> !manifest_lines(module_name, optimize_level).contains(
            "lto = true"@,
        ),
{
    let ls = manifest_lines(module_name, optimize_level);
    assert(ls[18] == opt_level_line(optimize_level));
    if optimize_level >= 3 {
        assert(ls[19] == "lto = true"@);
        assert(ls[20] == "codegen-units = 1"@);
    } else {
        reveal_strlit("lto = true");
        reveal_strlit("[package]");
        reveal_strlit("name = \"");
        reveal_strlit("version = \"0.1.0\"");
        reveal_strlit("edition = \"2021\"");
        reveal_strlit("");
        reveal_strlit("[lib]");
        reveal_strlit("crate-type = [\"cdylib\"]");
        reveal_strlit("[package.metadata.maturin]");
        reveal_strlit("binding = \"pyo3\"");
        reveal_strlit("strip = true");
        reveal_strlit("[dependencies]");
        reveal_strlit("pyo3 = { version = \"0.19\", features = [\"extension-module\"] }");
        reveal_strlit("[profile.release]");
        reveal_strlit("opt-level = 0");
        reveal_strlit("opt-level = 1");
        reveal_strlit("opt-level = 2");
        assert(ls.len() == 19);
        assert forall|i: int| 0 <= i < ls.len() implies ls[i] != "lto = true"@ by {
            if i == 1 || i == 6 || i == 10 {
                assert(ls[i][0] == 'n');
            } else {
                assert(ls[i].len() != 10);
            }
        }
    }
}

/// A Python module turned into the sources of a native extension project.
#[derive(Debug)]
pub struct TransformedModule {
    pub module_name: String,
    pub rust_code: String,
    pub build_script: String,
    pub cargo_toml: String,
    pub build_dir: String,
}

/// Turns the source of the module `module_name` into binding source and a
/// build manifest, to be built in `build_dir`; fails where the source is not
/// valid Python.
pub fn transform_source(
    source: &str,
    module_name: &str,
    optimize_level: u8,
    build_dir: String,
) -> (r: Result<TransformedModule, ParseError>)
    ensures
        r is Ok <==> parses(source@),
        r is Ok ==> r->Ok_0.module_name@ == module_name@ && r->Ok_0.rust_code@ == binding_source(
            parsed_module(source@)->0,
            module_name@,
        ) && r->Ok_0.cargo_toml@ == join_lines(manifest_lines(module_name@, optimize_level))
            && r->Ok_0.build_script@ == "cargo build --release"@ && r->Ok_0.build_dir
            == build_dir,
{
    let ast = match parse_source(source) {
        Ok(ast) => ast,
        Err(e) => return Err(e),
    };
    let rust_code = transform_ast(ast.as_slice(), module_name, optimize_level);
    let cargo_toml = generate_cargo_toml(module_name, optimize_level);
    Ok(TransformedModule {
        module_name: String::from_str(module_name),
        rust_code,
        build_script: String::from_str("cargo build --release"),
        cargo_toml,
        build_dir,
    })
}

/// `l` ends with `p`.
pub open spec fn ends_with(l: Seq<char>, p: Seq<char>) -> bool {
    p.len() <= l.len() && l.skip(l.len() - p.len()) == p
}

/// The header line of a stand-in function.
pub open spec fn is_function_header(l: Seq<char>) -> bool {
    starts_with(l, "fn "@) && ends_with(l, "(py: Python) -> PyResult<PyObject> {"@)
}

/// The header line of a stand-in struct.
pub open spec fn is_struct_header(l: Seq<char>) -> bool {
    starts_with(l, "struct "@)
}

pub open spec fn function_header_pred() -> spec_fn(Seq<char>) -> bool {
    |l: Seq<char>| is_function_header(l)
}

pub open spec fn struct_header_pred() -> spec_fn(Seq<char>) -> bool {
    |l: Seq<char>| is_struct_header(l)
}

/// A line that heads no stand-in.
pub open spec fn heads_nothing(l: Seq<char>) -> bool {
    !is_function_header(l) && !is_struct_header(l)
}

proof fn lemma_heads_nothing_by_char(l: Seq<char>)
    requires
        l.len() == 0 || (l[0] != 'f' && l[0] != 's'),
    ensures
        heads_nothing(l),
{
    reveal_strlit("fn ");
    reveal_strlit("struct ");
    if 3 <= l.len() {
        assert(l.take(3)[0] == l[0]);
    }
    if 7 <= l.len() {
        assert(l.take(7)[0] == l[0]);
    }
}

proof fn lemma_header_kinds(name: Seq<char>)
    ensures
        is_function_header(function_header(name)),
        !is_struct_header(function_header(name)),
        is_struct_header(struct_header(name)),
        !is_function_header(struct_header(name)),
{
    reveal_strlit("fn ");
    reveal_strlit("struct ");
    reveal_strlit("(py: Python) -> PyResult<PyObject> {");
    reveal_strlit(" {");
    let f = function_header(name);
    let t = struct_header(name);
    let suffix = "(py: Python) -> PyResult<PyObject> {"@;
    assert(f.take(3) =~= "fn "@);
    assert(f.skip(f.len() - suffix.len()) =~= suffix);
    assert(t.take(7) =~= "struct "@);
    if 7 <= f.len() {
        assert(f.take(7)[0] == 'f');
    }
    assert(t.take(3)[0] == 's');
}

/// The module function's header heads no stand-in: it ends otherwise.
proof fn lemma_module_header_heads_nothing(module_name: Seq<char>)
    ensures
        heads_nothing("fn "@ + module_name + "(_py: Python, m: &PyModule) -> PyResult<()> {"@),
{
    reveal_strlit("fn ");
    reveal_strlit("struct ");
    reveal_strlit("(py: Python) -> PyResult<PyObject> {");
    reveal_strlit("(_py: Python, m: &PyModule) -> PyResult<()> {");
    let tail = "(_py: Python, m: &PyModule) -> PyResult<()> {"@;
    let l = "fn "@ + module_name + tail;
    let suffix = "(py: Python) -> PyResult<PyObject> {"@;
    assert(l[l.len() - 4] == tail[tail.len() - 4]);
    if suffix.len() <= l.len() {
        assert(l.skip(l.len() - suffix.len())[suffix.len() - 4] == l[l.len() - 4]);
    }
    if 7 <= l.len() {
        assert(l.take(7)[0] == 'f');
    }
}

proof fn lemma_unheaded_run(s: Seq<Seq<char>>)
    requires
        forall|i: int| 0 <= i < s.len() ==> heads_nothing(#[trigger] s[i]),
    ensures
        s.filter(function_header_pred()) == Seq::<Seq<char>>::empty(),
        s.filter(struct_header_pred()) == Seq::<Seq<char>>::empty(),
{
    lemma_filter_none(s, function_header_pred());
    lemma_filter_none(s, struct_header_pred());
}

proof fn lemma_prologue_unheaded(module_name: Seq<char>)
    ensures
        forall|i: int|
            0 <= i < prologue_lines(module_name).len() ==> heads_nothing(
                #[trigger] prologue_lines(module_name)[i],
            ),
{
    reveal_strlit("use pyo3::prelude::*;");
    reveal_strlit("use pyo3::wrap_pyfunction;");
    reveal_strlit("");
    reveal_strlit("#[pymodule]");
    let ls = prologue_lines(module_name);
    assert forall|i: int| 0 <= i < ls.len() implies heads_nothing(#[trigger] ls[i]) by {
        if i == 4 {
            lemma_module_header_heads_nothing(module_name);
        } else {
            lemma_heads_nothing_by_char(ls[i]);
        }
    }
}

proof fn lemma_fixed_runs_unheaded(functions: Seq<Seq<char>>, classes: Seq<Seq<char>>)
    ensures
        forall|i: int|
            0 <= i < functions.len() ==> heads_nothing(
                #[trigger] function_registration(functions[i]),
            ),
        forall|i: int|
            0 <= i < classes.len() ==> heads_nothing(#[trigger] class_registration(classes[i])),
        forall|i: int|
            0 <= i < module_close_lines().len() ==> heads_nothing(
                #[trigger] module_close_lines()[i],
            ),
{
    reveal_strlit("    m.add_function(wrap_pyfunction!(");
    reveal_strlit("    m.add_class::<");
    reveal_strlit("    Ok(())");
    reveal_strlit("}");
    reveal_strlit("");
    assert forall|i: int| 0 <= i < functions.len() implies heads_nothing(
        #[trigger] function_registration(functions[i]),
    ) by {
        lemma_heads_nothing_by_char(function_registration(functions[i]));
    }
    assert forall|i: int| 0 <= i < classes.len() implies heads_nothing(
        #[trigger] class_registration(classes[i]),
    ) by {
        lemma_heads_nothing_by_char(class_registration(classes[i]));
    }
    let ls = module_close_lines();
    assert forall|i: int| 0 <= i < ls.len() implies heads_nothing(#[trigger] ls[i]) by {
        lemma_heads_nothing_by_char(ls[i]);
    }
}

proof fn lemma_function_stubs_headers(names: Seq<Seq<char>>)
    ensures
        function_stubs(names).filter(function_header_pred()) == names.map_values(
            |n: Seq<char>| function_header(n),
        ),
        function_stubs(names).filter(struct_header_pred()) == Seq::<Seq<char>>::empty(),
    decreases names.len(),
{
    broadcast use Seq::filter_distributes_over_add;

    if names.len() == 0 {
        reveal(Seq::filter);
        assert(names.map_values(|n: Seq<char>| function_header(n)) =~= Seq::<Seq<char>>::empty());
    } else {
        let p = names.drop_last();
        let n = names.last();
        lemma_function_stubs_headers(p);
        reveal_strlit("#[pyfunction]");
        reveal_strlit("    // Auto-generated function implementation");
        reveal_strlit("    Ok(py.None())");
        reveal_strlit("}");
        reveal_strlit("");
        let first = seq!["#[pyfunction]"@];
        let head = seq![function_header(n)];
        let rest = function_stub(n).skip(2);
        assert(function_stub(n) =~= first + head + rest);
        lemma_heads_nothing_by_char("#[pyfunction]"@);
        assert forall|i: int| 0 <= i < rest.len() implies heads_nothing(#[trigger] rest[i]) by {
            lemma_heads_nothing_by_char(rest[i]);
        }
        lemma_unheaded_run(rest);
        lemma_header_kinds(n);
        lemma_single_filter("#[pyfunction]"@, function_header_pred());
        lemma_single_filter("#[pyfunction]"@, struct_header_pred());
        lemma_single_filter(function_header(n), function_header_pred());
        lemma_single_filter(function_header(n), struct_header_pred());
        assert(function_stubs(names) == function_stubs(p) + (first + head + rest));
        assert(names.map_values(|m: Seq<char>| function_header(m)) =~= p.map_values(
            |m: Seq<char>| function_header(m),
        ).push(function_header(n)));
        let e = Seq::<Seq<char>>::empty();
        assert(e + head + e =~= head);
        assert(e + e + e =~= e);
        assert(p.map_values(|m: Seq<char>| function_header(m)) + head =~= p.map_values(
            |m: Seq<char>| function_header(m),
        ).push(function_header(n)));
    }
}

/// Past its first two lines, a class stub heads nothing; nor does its
/// attribute line.
proof fn lemma_class_stub_unheaded(name: Seq<char>)
    ensures
        heads_nothing("#[pyclass]"@),
        forall|i: int|
            0 <= i < class_stub(name).skip(2).len() ==> heads_nothing(
                #[trigger] class_stub(name).skip(2)[i],
            ),
{
    reveal_strlit("#[pyclass]");
    reveal_strlit("    // Auto-generated class implementation");
    reveal_strlit("}");
    reveal_strlit("");
    reveal_strlit("#[pymethods]");
    reveal_strlit("impl ");
    reveal_strlit("    #[new]");
    reveal_strlit("    fn new() -> Self {");
    reveal_strlit("        ");
    reveal_strlit("    }");
    lemma_heads_nothing_by_char("#[pyclass]"@);
    let rest = class_stub(name).skip(2);
    assert forall|i: int| 0 <= i < rest.len() implies heads_nothing(#[trigger] rest[i]) by {
        lemma_heads_nothing_by_char(rest[i]);
    }
}

proof fn lemma_class_stubs_headers(names: Seq<Seq<char>>)
    ensures
        class_stubs(names).filter(struct_header_pred()) == names.map_values(
            |n: Seq<char>| struct_header(n),
        ),
        class_stubs(names).filter(function_header_pred()) == Seq::<Seq<char>>::empty(),
    decreases names.len(),
{
    broadcast use Seq::filter_distributes_over_add;

    if names.len() == 0 {
        reveal(Seq::filter);
        assert(names.map_values(|n: Seq<char>| struct_header(n)) =~= Seq::<Seq<char>>::empty());
    } else {
        let p = names.drop_last();
        let n = names.last();
        lemma_class_stubs_headers(p);
        let first = seq!["#[pyclass]"@];
        let head = seq![struct_header(n)];
        let rest = class_stub(n).skip(2);
        assert(class_stub(n) =~= first + head + rest);
        lemma_class_stub_unheaded(n);
        lemma_unheaded_run(rest);
        lemma_header_kinds(n);
        lemma_single_filter("#[pyclass]"@, function_header_pred());
        lemma_single_filter("#[pyclass]"@, struct_header_pred());
        lemma_single_filter(struct_header(n), function_header_pred());
        lemma_single_filter(struct_header(n), struct_header_pred());
        assert(class_stubs(names) == class_stubs(p) + (first + head + rest));
        let e = Seq::<Seq<char>>::empty();
        assert(e + head + e =~= head);
        assert(e + e + e =~= e);
        assert(p.map_values(|m: Seq<char>| struct_header(m)) + head =~= names.map_values(
            |m: Seq<char>| struct_header(m),
        ));
    }
}

/// The stand-ins of the binding source are named after the declarations, in
/// order: its function headers are exactly those of `functions`, its struct
/// headers exactly those of `classes`.
pub proof fn lemma_binding_stub_names(
    functions: Seq<Seq<char>>,
    classes: Seq<Seq<char>>,
    module_name: Seq<char>,
)
    ensures
        binding_lines(functions, classes, module_name).filter(function_header_pred())
            == functions.map_values(|n: Seq<char>| function_header(n)),
        binding_lines(functions, classes, module_name).filter(struct_header_pred())
            == classes.map_values(|n: Seq<char>| struct_header(n)),
{
    broadcast use Seq::filter_distributes_over_add;

    lemma_prologue_unheaded(module_name);
    lemma_unheaded_run(prologue_lines(module_name));
    lemma_fixed_runs_unheaded(functions, classes);
    let fr = functions.map_values(|n: Seq<char>| function_registration(n));
    let cr = classes.map_values(|n: Seq<char>| class_registration(n));
    assert forall|i: int| 0 <= i < fr.len() implies heads_nothing(#[trigger] fr[i]) by {
        assert(fr[i] == function_registration(functions[i]));
    }
    assert forall|i: int| 0 <= i < cr.len() implies heads_nothing(#[trigger] cr[i]) by {
        assert(cr[i] == class_registration(classes[i]));
    }
    lemma_unheaded_run(fr);
    lemma_unheaded_run(cr);
    lemma_unheaded_run(module_close_lines());
    lemma_function_stubs_headers(functions);
    lemma_class_stubs_headers(classes);
    let e = Seq::<Seq<char>>::empty();
    let fh = functions.map_values(|n: Seq<char>| function_header(n));
    let ch = classes.map_values(|n: Seq<char>| struct_header(n));
    assert(e + e + e + e + fh + e =~= fh);
    assert(e + e + e + e + e + ch =~= ch);
}

} // verus!
