//! The shader builder: declarations and body text are collected by chained
//! calls, and finalizing turns them into a vertex and a fragment source.

use vstd::prelude::*;
use vstd::string::StringExecFns;
use crate::text::{to_chars, append_chars, same_text};
use crate::rendering::hoist::hoist_functions;
use crate::rendering::source::{
    BuilderModel, Entry, empty_model, declaration_line, declaration_lines,
    precision_line, position_entry, position_statement, shared_declarations, stage_text,
    full_vertex_body, vertex_header, vertex_source, fragment_source,
    lemma_declaration_lines_push, is_reserved, all_unreserved, forwarding_statement,
};

verus! {

/// The model of a list of declared variables.
pub open spec fn entries_view(entries: Seq<(String, String)>) -> Seq<Entry> {
    Seq::new(entries.len(), |i: int| (entries[i].0@, entries[i].1@))
}

/// Collects what a shader pair consists of. Every call takes the builder
/// and hands it back, and finalizing uses it up.
pub struct ShaderBuilder {
    parts: Parts,
}

/// What a builder holds.
struct Parts {
    attributes: Vec<(String, String)>,
    varyings: Vec<(String, String)>,
    uniforms: Vec<(String, String)>,
    vertex_body: String,
    fragment_body: String,
    use_3d: bool,
    use_proj: bool,
    use_view: bool,
    use_highp: bool,
}

impl View for ShaderBuilder {
    type V = BuilderModel;

    closed spec fn view(&self) -> BuilderModel {
        BuilderModel {
            attributes: entries_view(self.parts.attributes@),
            varyings: entries_view(self.parts.varyings@),
            uniforms: entries_view(self.parts.uniforms@),
            vertex_body: self.parts.vertex_body@,
            fragment_body: self.parts.fragment_body@,
            use_3d: self.parts.use_3d,
            use_proj: self.parts.use_proj,
            use_view: self.parts.use_view,
            use_highp: self.parts.use_highp,
        }
    }
}

/// What a finalized builder hands to the driver.
pub struct ProgramSource {
    /// Source of the vertex stage.
    pub vertex: String,
    /// Source of the fragment stage.
    pub fragment: String,
    /// Attribute names; the index of a name is its binding location.
    pub attribute_locations: Vec<String>,
}

/// Whether `names` lists the attributes of `m` by binding location:
/// `position` at location 0 and the declared attributes after it, in the
/// order of their declaration.
pub open spec fn are_locations(names: Seq<String>, m: BuilderModel) -> bool {
    &&& names.len() == m.attributes.len() + 1
    &&& names[0]@ == "position"@
    &&& forall|i: int| 0 <= i < m.attributes.len() ==> #[trigger] names[i + 1]@ == m.attributes[i].1
}

/// Appends the entry `(ty, name)` to `entries`.
fn push_entry(entries: &mut Vec<(String, String)>, ty: String, name: String)
    ensures
        entries_view(final(entries)@) == entries_view(old(entries)@).push((ty@, name@)),
{
    entries.push((ty, name));
    assert(entries_view(entries@) =~= entries_view(old(entries)@).push((ty@, name@)));
}

/// Appends one declaration line to `out`.
fn emit_declaration(out: &mut String, qualifier: &str, ty: &str, name: &str)
    ensures
        final(out)@ == old(out)@ + declaration_line(qualifier@, (ty@, name@)),
{
    out.append(qualifier);
    out.append(" ");
    out.append(ty);
    out.append(" ");
    out.append(name);
    out.append(";\n");
    assert(out@ =~= old(out)@ + declaration_line(qualifier@, (ty@, name@)));
}

/// Appends the declaration lines of `entries` to `out`, in order.
fn emit_declarations(out: &mut String, qualifier: &str, entries: &Vec<(String, String)>)
    ensures
        final(out)@ == old(out)@ + declaration_lines(qualifier@, entries_view(entries@)),
{
    let ghost all = entries_view(entries@);
    let mut i: usize = 0;
    assert(out@ =~= old(out)@ + declaration_lines(qualifier@, all.subrange(0, 0)));
    while i < entries.len()
        invariant
            i <= entries.len(),
            all == entries_view(entries@),
            out@ == old(out)@ + declaration_lines(qualifier@, all.subrange(0, i as int)),
        decreases entries.len() - i,
    {
        emit_declaration(out, qualifier, entries[i].0.as_str(), entries[i].1.as_str());
        proof {
            assert(all.subrange(0, i + 1) =~= all.subrange(0, i as int).push(all[i as int]));
            lemma_declaration_lines_push(qualifier@, all.subrange(0, i as int), all[i as int]);
            assert(out@ =~= old(out)@ + declaration_lines(qualifier@, all.subrange(0, i + 1)));
        }
        i += 1;
    }
    assert(all.subrange(0, i as int) =~= all);
}

/// Appends the common part of a stage to `out`: the shared declarations,
/// the definitions hoisted out of `body`, and `main` with the rest of it.
fn emit_stage(out: &mut String, shared: &str, body: &str)
    ensures
        final(out)@ == old(out)@ + stage_text(shared@, body@),
{
    let (definitions, rest) = hoist_functions(to_chars(body));
    out.append("\n");
    out.append(shared);
    out.append("\n");
    append_chars(out, &definitions);
    out.append("void main() {\n");
    append_chars(out, &rest);
    out.append("}\n");
    assert(out@ =~= old(out)@ + stage_text(shared@, body@));
}

impl ShaderBuilder {
    /// The built-in attribute is the only one named `position`.
    #[verifier::type_invariant]
    spec fn position_unclaimed(self) -> bool {
        all_unreserved(entries_view(self.parts.attributes@))
    }

    /// A builder on which nothing has been declared.
    pub fn new() -> (out: Self)
        ensures
            out@ == empty_model(),
    {
        let parts = Parts {
            attributes: Vec::new(),
            varyings: Vec::new(),
            uniforms: Vec::new(),
            vertex_body: String::new(),
            fragment_body: String::new(),
            use_3d: false,
            use_proj: false,
            use_view: false,
            use_highp: false,
        };
        assert(entries_view(parts.attributes@) =~= Seq::empty());
        assert(entries_view(parts.varyings@) =~= Seq::empty());
        assert(entries_view(parts.uniforms@) =~= Seq::empty());
        ShaderBuilder { parts }
    }

    /// Positions get three components instead of two.
    pub fn use_3d(self) -> (out: Self)
        ensures
            out@ == (BuilderModel { use_3d: true, ..self@ }),
    {
        proof {
            use_type_invariant(&self);
        }
        let mut parts = self.parts;
        parts.use_3d = true;
        ShaderBuilder { parts }
    }

    /// Multiplies positions by the projection matrix, which becomes the
    /// uniform `u_proj`.
    pub fn use_proj(self) -> (out: Self)
        ensures
            out@ == (BuilderModel {
                use_proj: true,
                uniforms: self@.uniforms.push(("mat4"@, "u_proj"@)),
                ..self@
            }),
    {
        proof {
            use_type_invariant(&self);
        }
        let mut parts = self.parts;
        parts.use_proj = true;
        proof {
            reveal_strlit("u_");
            reveal_strlit("proj");
            reveal_strlit("u_proj");
            assert("u_"@ + "proj"@ =~= "u_proj"@);
        }
        ShaderBuilder { parts }.uniform("proj", "mat4")
    }

    /// Multiplies positions by the view matrix, which becomes the uniform
    /// `u_view`.
    pub fn use_view(self) -> (out: Self)
        ensures
            out@ == (BuilderModel {
                use_view: true,
                uniforms: self@.uniforms.push(("mat4"@, "u_view"@)),
                ..self@
            }),
    {
        proof {
            use_type_invariant(&self);
        }
        let mut parts = self.parts;
        parts.use_view = true;
        proof {
            reveal_strlit("u_");
            reveal_strlit("view");
            reveal_strlit("u_view");
            assert("u_"@ + "view"@ =~= "u_view"@);
        }
        ShaderBuilder { parts }.uniform("view", "mat4")
    }

    /// Floats get high instead of medium precision in both stages.
    pub fn use_highp(self) -> (out: Self)
        ensures
            out@ == (BuilderModel { use_highp: true, ..self@ }),
    {
        proof {
            use_type_invariant(&self);
        }
        let mut parts = self.parts;
        parts.use_highp = true;
        ShaderBuilder { parts }
    }

    /// Adds the statement `data` to the vertex stage.
    pub fn vertex(self, data: &str) -> (out: Self)
        ensures
            out@ == (BuilderModel {
                vertex_body: self@.vertex_body + data@ + ";\n"@,
                ..self@
            }),
    {
        proof {
            use_type_invariant(&self);
        }
        let mut parts = self.parts;
        parts.vertex_body.append(data);
        parts.vertex_body.append(";\n");
        ShaderBuilder { parts }
    }

    /// Adds the statement `data` to the fragment stage.
    pub fn fragment(self, data: &str) -> (out: Self)
        ensures
            out@ == (BuilderModel {
                fragment_body: self@.fragment_body + data@ + ";\n"@,
                ..self@
            }),
    {
        proof {
            use_type_invariant(&self);
        }
        let mut parts = self.parts;
        parts.fragment_body.append(data);
        parts.fragment_body.append(";\n");
        ShaderBuilder { parts }
    }

    /// Declares the uniform `u_<name>` of type `ty` in both stages.
    pub fn uniform(self, name: &str, ty: &str) -> (out: Self)
        ensures
            out@ == (BuilderModel {
                uniforms: self@.uniforms.push((ty@, "u_"@ + name@)),
                ..self@
            }),
    {
        proof {
            use_type_invariant(&self);
        }
        let mut parts = self.parts;
        let mut full = String::from_str("u_");
        full.append(name);
        push_entry(&mut parts.uniforms, String::from_str(ty), full);
        ShaderBuilder { parts }
    }

    /// Declares the vertex attribute `name` of type `ty`.
    ///
    /// The name `position` belongs to the built-in attribute: declaring it
    /// changes nothing.
    pub fn attribute(self, name: &str, ty: &str) -> (out: Self)
        ensures
            is_reserved(name@) ==> out@ == self@,
            !is_reserved(name@) ==> out@ == (BuilderModel {
                attributes: self@.attributes.push((ty@, name@)),
                ..self@
            }),
    {
        if same_text(name, "position") {
            return self;
        }
        proof {
            use_type_invariant(&self);
        }
        let mut parts = self.parts;
        push_entry(&mut parts.attributes, String::from_str(ty), String::from_str(name));
        ShaderBuilder { parts }
    }

    /// Declares the varying `v_<name>` of type `ty` in both stages.
    pub fn varying(self, name: &str, ty: &str) -> (out: Self)
        ensures
            out@ == (BuilderModel {
                varyings: self@.varyings.push((ty@, "v_"@ + name@)),
                ..self@
            }),
    {
        proof {
            use_type_invariant(&self);
        }
        let mut parts = self.parts;
        let mut full = String::from_str("v_");
        full.append(name);
        push_entry(&mut parts.varyings, String::from_str(ty), full);
        ShaderBuilder { parts }
    }

    /// Declares the attribute `name` and hands it on to the fragment stage
    /// unchanged: the attribute, the varying `v_<name>`, and the vertex
    /// statement that copies the one into the other.
    pub fn frag_attribute(self, name: &str, ty: &str) -> (out: Self)
        ensures
            out@ == (BuilderModel {
                attributes: if is_reserved(name@) {
                    self@.attributes
                } else {
                    self@.attributes.push((ty@, name@))
                },
                varyings: self@.varyings.push((ty@, "v_"@ + name@)),
                vertex_body: self@.vertex_body + forwarding_statement(name@),
                ..self@
            }),
    {
        let declared = self.attribute(name, ty).varying(name, ty);
        proof {
            use_type_invariant(&declared);
        }
        let mut parts = declared.parts;
        parts.vertex_body.append("v_");
        parts.vertex_body.append(name);
        parts.vertex_body.append(" = ");
        parts.vertex_body.append(name);
        parts.vertex_body.append(";\n");
        assert(parts.vertex_body@ =~= self@.vertex_body + forwarding_statement(name@));
        ShaderBuilder { parts }
    }

    /// Adds the statement that writes `expr` to the fragment colour.
    pub fn output(self, expr: &str) -> (out: Self)
        ensures
            out@ == (BuilderModel {
                fragment_body: self@.fragment_body + "gl_FragColor = "@ + expr@ + ";\n"@,
                ..self@
            }),
    {
        proof {
            use_type_invariant(&self);
        }
        let mut parts = self.parts;
        parts.fragment_body.append("gl_FragColor = ");
        parts.fragment_body.append(expr);
        parts.fragment_body.append(";\n");
        ShaderBuilder { parts }
    }

    /// The attribute names by binding location: `position` at location 0,
    /// then the declared attributes in call order. No declared attribute is
    /// named `position`, so location 0 is the only one with this name.
    pub fn attribute_locations(&self) -> (out: Vec<String>)
        ensures
            are_locations(out@, self@),
            all_unreserved(self@.attributes),
    {
        proof {
            use_type_invariant(self);
        }
        let mut out: Vec<String> = Vec::new();
        out.push(String::from_str("position"));
        let mut i: usize = 0;
        while i < self.parts.attributes.len()
            invariant
                i <= self.parts.attributes.len(),
                out@.len() == i + 1,
                out@[0]@ == "position"@,
                forall|j: int|
                    0 <= j < i ==> #[trigger] out@[j + 1]@ == entries_view(
                        self.parts.attributes@,
                    )[j].1,
            decreases self.parts.attributes.len() - i,
        {
            out.push(self.parts.attributes[i].1.clone());
            i += 1;
        }
        out
    }

    /// Generates the vertex and the fragment source, in this order.
    pub fn finalize_source(self) -> (out: (String, String))
        ensures
            out.0@ == vertex_source(self@),
            out.1@ == fragment_source(self@),
    {
        let mut shared = String::new();
        emit_declarations(&mut shared, "varying", &self.parts.varyings);
        emit_declarations(&mut shared, "uniform", &self.parts.uniforms);
        assert(shared@ =~= shared_declarations(self@));

        let precision = if self.parts.use_highp {
            "precision highp float;\n"
        } else {
            "precision mediump float;\n"
        };
        let mut vert_src = String::new();
        let mut frag_src = String::new();
        vert_src.append(precision);
        frag_src.append(precision);

        let position_ty = if self.parts.use_3d { "vec3" } else { "vec2" };
        emit_declaration(&mut vert_src, "attribute", position_ty, "position");
        emit_declarations(&mut vert_src, "attribute", &self.parts.attributes);
        assert(vert_src@ =~= vertex_header(self@));

        let mut vertex_body = String::new();
        vertex_body.append("gl_Position = ");
        if self.parts.use_proj {
            vertex_body.append("u_proj * ");
        }
        if self.parts.use_view {
            vertex_body.append("u_view * ");
        }
        if self.parts.use_3d {
            vertex_body.append("vec4(position, 1.0);\n");
        } else {
            vertex_body.append("vec4(position, 0.0, 1.0);\n");
        }
        assert(vertex_body@ =~= position_statement(self@));
        vertex_body.append(self.parts.vertex_body.as_str());

        emit_stage(&mut vert_src, shared.as_str(), vertex_body.as_str());
        emit_stage(&mut frag_src, shared.as_str(), self.parts.fragment_body.as_str());
        (vert_src, frag_src)
    }

    /// Everything the driver needs to build the program: both sources and
    /// the location to bind each attribute to.
    pub fn finalize(self) -> (out: ProgramSource)
        ensures
            out.vertex@ == vertex_source(self@),
            out.fragment@ == fragment_source(self@),
            are_locations(out.attribute_locations@, self@),
            all_unreserved(self@.attributes),
    {
        let attribute_locations = self.attribute_locations();
        let (vertex, fragment) = self.finalize_source();
        ProgramSource { vertex, fragment, attribute_locations }
    }
}

} // verus!
