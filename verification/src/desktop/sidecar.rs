//! How the desktop program starts its Python backend: where it looks for
//! Python, the command line it runs, and the address it talks to.
use vstd::prelude::*;

verus! {

pub open spec fn strs_view(v: Seq<String>) -> Seq<Seq<char>> {
    v.map_values(|s: String| s@)
}

/// `http://127.0.0.1:<port>`.
pub open spec fn base_url_spec(port: u16) -> Seq<char> {
    "http://127.0.0.1:"@ + crate::text::decimal(port as nat)
}

pub fn base_url(port: u16) -> (r: String)
    ensures
        r@ == base_url_spec(port),
{
    let mut s = crate::text::owned("http://127.0.0.1:");
    crate::text::push_decimal(&mut s, port as u64);
    s
}

/// The readiness probe: `<base url>/health`.
pub fn health_url(port: u16) -> (r: String)
    ensures
        r@ == base_url_spec(port) + "/health"@,
{
    let mut s = base_url(port);
    crate::text::push_str(&mut s, "/health");
    s
}

/// The port used when the system hands out none.
pub fn port_or_default(free: Option<u16>) -> (r: u16)
    ensures
        r == match free {
            Some(p) => p,
            None => 8765u16,
        },
{
    match free {
        Some(p) => p,
        None => 8765,
    }
}

/// The arguments Python is run with: its own prefix arguments, then uvicorn
/// serving `main:app` on 127.0.0.1 at `port` with error-level logging.
pub open spec fn uvicorn_args_spec(prefix: Seq<Seq<char>>, port: u16) -> Seq<Seq<char>> {
    prefix + seq![
        "-m"@,
        "uvicorn"@,
        "main:app"@,
        "--port"@,
        crate::text::decimal(port as nat),
        "--host"@,
        "127.0.0.1"@,
        "--log-level"@,
        "error"@,
    ]
}

pub fn uvicorn_args(prefix: &Vec<String>, port: u16) -> (r: Vec<String>)
    ensures
        strs_view(r@) == uvicorn_args_spec(strs_view(prefix@), port),
{
    let mut r: Vec<String> = Vec::new();
    let mut i: usize = 0;
    while i < prefix.len()
        invariant
            0 <= i <= prefix.len(),
            strs_view(r@) == strs_view(prefix@).take(i as int),
        decreases prefix.len() - i,
    {
        let ghost before = r@;
        r.push(prefix[i].clone());
        assert(strs_view(r@) =~= strs_view(before).push(prefix@[i as int]@));
        assert(strs_view(prefix@).take(i + 1) =~= strs_view(prefix@).take(i as int).push(
            prefix@[i as int]@,
        ));
        i += 1;
    }
    assert(strs_view(prefix@).take(i as int) =~= strs_view(prefix@));
    let ghost p = r@;
    r.push(crate::text::owned("-m"));
    r.push(crate::text::owned("uvicorn"));
    r.push(crate::text::owned("main:app"));
    r.push(crate::text::owned("--port"));
    r.push(crate::text::decimal_string(port as u64));
    r.push(crate::text::owned("--host"));
    r.push(crate::text::owned("127.0.0.1"));
    r.push(crate::text::owned("--log-level"));
    r.push(crate::text::owned("error"));
    assert(strs_view(r@) =~= uvicorn_args_spec(strs_view(prefix@), port));
    r
}

/// Where the backend folder is looked for, relative to the program's own
/// folder, in order (a folder counts when it holds `main.py`).
pub fn backend_dir_candidates() -> (r: Vec<&'static str>)
    ensures
        r@.map_values(|s: &'static str| s@) == seq!["backend"@, "../backend"@, "../../backend"@],
{
    let r = vec!["backend", "../backend", "../../backend"];
    assert(r@.map_values(|s: &'static str| s@) =~= seq!["backend"@, "../backend"@, "../../backend"@]);
    r
}

/// Python interpreters bundled next to the program, in order of preference.
pub fn bundled_python_candidates() -> (r: Vec<&'static str>)
    ensures
        r@.map_values(|s: &'static str| s@) == seq![
            "python/python.exe"@,
            "python_env/Scripts/python.exe"@,
        ],
{
    let r = vec!["python/python.exe", "python_env/Scripts/python.exe"];
    assert(r@.map_values(|s: &'static str| s@) =~= seq![
        "python/python.exe"@,
        "python_env/Scripts/python.exe"@,
    ]);
    r
}

pub open spec fn candidates_view(v: Seq<(&'static str, Vec<&'static str>)>) -> Seq<(Seq<char>, Seq<Seq<char>>)> {
    v.map_values(|c: (&'static str, Vec<&'static str>)| (c.0@, c.1@.map_values(|s: &'static str| s@)))
}

/// System Pythons tried in order, each with its prefix arguments:
/// 3.12 and 3.11 through the `py` launcher first, then by name.
pub open spec fn system_python_candidates_spec() -> Seq<(Seq<char>, Seq<Seq<char>>)> {
    seq![
        ("py"@, seq!["-3.12"@]),
        ("py"@, seq!["-3.11"@]),
        ("python3.12"@, seq![]),
        ("python3.11"@, seq![]),
        ("python3"@, seq![]),
        ("python"@, seq![]),
    ]
}

pub fn system_python_candidates() -> (r: Vec<(&'static str, Vec<&'static str>)>)
    ensures
        candidates_view(r@) == system_python_candidates_spec(),
{
    let mut r: Vec<(&'static str, Vec<&'static str>)> = Vec::new();
    r.push(("py", vec!["-3.12"]));
    r.push(("py", vec!["-3.11"]));
    r.push(("python3.12", Vec::new()));
    r.push(("python3.11", Vec::new()));
    r.push(("python3", Vec::new()));
    r.push(("python", Vec::new()));
    proof {
        assert(r@[0].1@.map_values(|s: &'static str| s@) =~= seq!["-3.12"@]);
        assert(r@[1].1@.map_values(|s: &'static str| s@) =~= seq!["-3.11"@]);
        assert(r@[2].1@.map_values(|s: &'static str| s@) =~= Seq::<Seq<char>>::empty());
        assert(r@[3].1@.map_values(|s: &'static str| s@) =~= Seq::<Seq<char>>::empty());
        assert(r@[4].1@.map_values(|s: &'static str| s@) =~= Seq::<Seq<char>>::empty());
        assert(r@[5].1@.map_values(|s: &'static str| s@) =~= Seq::<Seq<char>>::empty());
        assert(candidates_view(r@) =~= system_python_candidates_spec());
    }
    r
}

} // verus!
