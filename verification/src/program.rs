use vstd::prelude::*;
use crate::error::GlError;
use crate::shader::CompiledShader;

verus! {

/// One resolved binding of a linked program: an attribute or uniform name
/// and the integer location the driver assigned to it.
#[derive(Debug)]
pub struct NamedLocation {
    pub name: String,
    pub location: u32,
}

/// First-match lookup of a name in a location table. `None` means the
/// name is absent from the table.
pub open spec fn spec_lookup(entries: Seq<NamedLocation>, name: Seq<char>) -> Option<u32>
    decreases entries.len(),
{
    if entries.len() == 0 {
        None
    } else if entries[0].name@ == name {
        Some(entries[0].location)
    } else {
        spec_lookup(entries.drop_first(), name)
    }
}

/// No two entries of the table share a name.
pub open spec fn unique_names(entries: Seq<NamedLocation>) -> bool {
    forall|j: int, k: int|
        0 <= j < k < entries.len() ==> entries[j].name@ != entries[k].name@
}

proof fn lemma_lookup_step(entries: Seq<NamedLocation>, name: Seq<char>, i: int)
    requires
        0 <= i < entries.len(),
    ensures
        spec_lookup(entries.skip(i), name) == (if entries[i].name@ == name {
            Some(entries[i].location)
        } else {
            spec_lookup(entries.skip(i + 1), name)
        }),
{
    assert(entries.skip(i)[0] == entries[i]);
    assert(entries.skip(i).drop_first() =~= entries.skip(i + 1));
}

/// Linear search of a location table, returning the first entry whose
/// name matches.
pub fn lookup(entries: &Vec<NamedLocation>, name: &String) -> (r: Option<u32>)
    ensures
        r == spec_lookup(entries@, name@),
{
    proof {
        assert(entries@.skip(0) =~= entries@);
    }
    let mut i: usize = 0;
    while i < entries.len()
        invariant
            i <= entries@.len(),
            spec_lookup(entries@, name@) == spec_lookup(entries@.skip(i as int), name@),
        decreases entries@.len() - i,
    {
        proof {
            lemma_lookup_step(entries@, name@, i as int);
        }
        if entries[i].name == *name {
            return Some(entries[i].location);
        }
        i = i + 1;
    }
    None
}

/// An executable program: an opaque GPU handle plus the attribute and
/// uniform locations the driver resolved for it. A uniform absent from
/// its table was unused or optimized out by the compiler, which is not an
/// error.
#[derive(Debug)]
pub struct LinkedProgram {
    pub handle: u32,
    pub attributes: Vec<NamedLocation>,
    pub uniforms: Vec<NamedLocation>,
}

impl LinkedProgram {
    /// The driver resolves at most one location per name, so both tables
    /// carry each name at most once.
    pub open spec fn wf(self) -> bool {
        unique_names(self.attributes@) && unique_names(self.uniforms@)
    }

    /// Location of a declared attribute; `None` signals that the shader
    /// source does not declare the attribute.
    pub fn attribute_location(&self, name: &String) -> (r: Option<u32>)
        ensures
            r == spec_lookup(self.attributes@, name@),
    {
        lookup(&self.attributes, name)
    }

    /// Location of a uniform; `None` is the expected, non-fatal outcome
    /// for a name the shader source does not declare (or that the
    /// compiler optimized out), and per-frame updates skip such a
    /// uniform.
    pub fn uniform_location(&self, name: &String) -> (r: Option<u32>)
        ensures
            r == spec_lookup(self.uniforms@, name@),
    {
        lookup(&self.uniforms, name)
    }
}

/// Decides the outcome of linking a vertex and a fragment shader. The
/// driver has already attached both shaders, linked, and been queried for
/// its link status (`status`) and info log (`log`); on success the caller
/// also queried the location tables (`attributes`, `uniforms`). A true
/// status yields the program installed as current on the context; a false
/// status yields a `ProgramLink` error carrying the info log.
pub fn finish_link(
    vertex: &CompiledShader,
    fragment: &CompiledShader,
    handle: u32,
    status: bool,
    log: String,
    attributes: Vec<NamedLocation>,
    uniforms: Vec<NamedLocation>,
) -> (r: Result<LinkedProgram, GlError>)
    requires
        vertex.stage is Vertex,
        fragment.stage is Fragment,
    ensures
        r is Ok <==> status,
        status ==> r->Ok_0.handle == handle && r->Ok_0.attributes@ == attributes@
            && r->Ok_0.uniforms@ == uniforms@,
        !status ==> (r->Err_0 matches GlError::ProgramLink { log: l } && l@ == log@),
{
    if status {
        Ok(LinkedProgram { handle, attributes, uniforms })
    } else {
        Err(GlError::ProgramLink { log })
    }
}

/// Every name a location table declares is found by lookup, at exactly
/// the location the table assigns it: on a well-formed program, a
/// declared attribute always resolves to its defined index.
pub proof fn lemma_lookup_finds_declared(entries: Seq<NamedLocation>, i: int)
    requires
        unique_names(entries),
        0 <= i < entries.len(),
    ensures
        spec_lookup(entries, entries[i].name@) == Some(entries[i].location),
    decreases entries.len(),
{
    if i == 0 {
    } else {
        assert(entries[0].name@ != entries[i].name@);
        let rest = entries.drop_first();
        assert(unique_names(rest)) by {
            assert(forall|j: int, k: int|
                0 <= j < k < rest.len() ==> rest[j] == entries[j + 1] && rest[k] == entries[k + 1]);
        }
        assert(rest[i - 1] == entries[i]);
        lemma_lookup_finds_declared(rest, i - 1);
    }
}

/// A name no entry of the table carries is reported absent by lookup.
pub proof fn lemma_lookup_absent(entries: Seq<NamedLocation>, name: Seq<char>)
    requires
        forall|i: int| 0 <= i < entries.len() ==> entries[i].name@ != name,
    ensures
        spec_lookup(entries, name) is None,
    decreases entries.len(),
{
    if entries.len() > 0 {
        let rest = entries.drop_first();
        assert(forall|i: int| 0 <= i < rest.len() ==> rest[i] == entries[i + 1]);
        lemma_lookup_absent(rest, name);
    }
}

/// On a well-formed linked program, every attribute its table declares
/// is resolved by `attribute_location` to exactly the index the driver
/// assigned it: a successful link exposes a defined index for each
/// declared attribute.
pub proof fn lemma_program_resolves_declared_attribute(p: LinkedProgram, i: int)
    requires
        p.wf(),
        0 <= i < p.attributes@.len(),
    ensures
        spec_lookup(p.attributes@, p.attributes@[i].name@) == Some(p.attributes@[i].location),
{
    lemma_lookup_finds_declared(p.attributes@, i);
}

} // verus!
