use frame_renderer::pipeline::{
    Comparison, CullFace, DepthState, FrontFace, PipelineDescriptor, Primitive, RasterMethod,
    Rasterizer, FRAGMENT_SHADER, VERTEX_SHADER,
};
use frame_renderer::renderer::Renderer;
use frame_renderer::resource::{
    ColorTarget, DepthTarget, FilterMethod, Sampler, Texture, TextureBinding, WrapMode,
};
use frame_renderer::vertex::{Attribute, Vertex, COMPONENT_BYTES};

#[test]
fn depth_test_is_less_or_equal_with_writes() {
    let d = PipelineDescriptor::new();
    assert_eq!(d.out_depth, DepthState { fun: Comparison::LessEqual, write: true });
}

#[test]
fn triangles_are_filled_and_back_faces_culled() {
    let d = PipelineDescriptor::new();
    assert_eq!(d.primitive, Primitive::TriangleList);
    assert_eq!(
        d.rasterizer,
        Rasterizer {
            front_face: FrontFace::Clockwise,
            cull_face: CullFace::Back,
            method: RasterMethod::Fill,
        }
    );
}

#[test]
fn binding_names() {
    let d = PipelineDescriptor::new();
    assert_eq!(d.projection, "u_projection");
    assert_eq!(d.view, "u_view");
    assert_eq!(d.texture, "s_texture");
    assert_eq!(d.out_color, "out_color");
}

#[test]
fn shader_sources_declare_what_the_descriptor_binds() {
    let d = PipelineDescriptor::new();
    assert_eq!(d.vertex_shader, VERTEX_SHADER);
    assert_eq!(d.fragment_shader, FRAGMENT_SHADER);
    assert!(d.vertex_shader.contains("uniform mat4 u_projection, u_view;"));
    assert!(d.vertex_shader.contains("gl_Position = u_projection * u_view * vec4(at_position, 1.0);"));
    assert!(d.fragment_shader.contains("uniform sampler2D s_texture;"));
    assert!(d.fragment_shader.contains("out vec4 out_color;"));
    assert!(d.fragment_shader.contains("if(tex_color.a == 0.0)"));
    assert!(d.fragment_shader.contains("discard;"));
    assert!(d.fragment_shader.contains("out_color = tex_color * vec4(v_color, 1.0);"));
    for attribute in d.vbuf.attributes.iter() {
        assert!(d.vertex_shader.contains(attribute.name));
    }
}

#[test]
fn vertex_layout_follows_the_fields() {
    let layout = Vertex::layout();
    assert_eq!(
        layout.attributes,
        [
            Attribute { name: "at_position", offset: 0, components: 3 },
            Attribute { name: "at_tex_coord", offset: 12, components: 2 },
            Attribute { name: "at_color", offset: 20, components: 3 },
        ]
    );
    assert_eq!(layout.stride, 32);
    assert_eq!(layout.stride as usize, std::mem::size_of::<Vertex>());
    assert_eq!(PipelineDescriptor::new().vbuf, layout);
}

#[test]
fn vertex_layout_has_no_gaps() {
    let layout = Vertex::layout();
    let mut next = 0;
    for attribute in layout.attributes.iter() {
        assert_eq!(attribute.offset, next);
        next = attribute.offset + attribute.components * COMPONENT_BYTES;
    }
    assert_eq!(layout.stride, next);
}

#[test]
fn texture_is_bound_at_its_base_level_unfiltered_and_tiled() {
    let binding = TextureBinding::new(Texture { id: 4 });
    assert_eq!(
        binding,
        TextureBinding {
            texture: Texture { id: 4 },
            min_level: 0,
            max_level: 0,
            sampler: Sampler { filter: FilterMethod::Scale, wrap: WrapMode::Tile },
        }
    );
}

#[test]
fn renderer_runs_the_standard_pipeline() {
    let mut r = Renderer::new(ColorTarget { id: 1 }, DepthTarget { id: 2 }, Texture { id: 3 });
    assert_eq!(r.pipeline(), PipelineDescriptor::new());
    r.clear();
    r.flush();
    assert_eq!(r.pipeline(), PipelineDescriptor::new());
}
