use render_gl::Gl;
use render_gl::data::AttribPointer;
use render_gl::data::ComponentKind;
use render_gl::data::vertex_attrib_pointers;
use render_gl::handle::SYMBOL_COUNT;
use render_gl::handle::required_symbol;

#[test]
fn load_with_resolves_every_symbol() {
    let gl = Gl::load_with(|name: &'static str| name.len());
    assert_eq!(gl.entry_count(), SYMBOL_COUNT);
}

#[test]
fn table_entries_are_loader_answers() {
    let gl = Gl::load_with(|name: &'static str| name.len());
    for i in 0..gl.entry_count() {
        assert_eq!(gl.entry(i), required_symbol(i).len());
    }
    assert_eq!(gl.entry(0), "CreateShader".len());
}

#[test]
fn cloned_handle_shares_the_table() {
    let gl = Gl::load_with(|name: &'static str| name.len());
    let other = gl.clone();
    assert_eq!(other.entry_count(), gl.entry_count());
    for i in 0..gl.entry_count() {
        assert_eq!(other.entry(i), gl.entry(i));
    }
}

#[test]
fn vertex_layout_is_interleaved_position_then_color() {
    let layout = vertex_attrib_pointers();
    assert_eq!(layout.len(), 2);
    assert_eq!(
        layout[0],
        AttribPointer {
            location: 0,
            components: 3,
            component_kind: ComponentKind::Float,
            normalized: false,
            stride: 24,
            offset: 0,
        }
    );
    assert_eq!(
        layout[1],
        AttribPointer {
            location: 1,
            components: 3,
            component_kind: ComponentKind::Float,
            normalized: false,
            stride: 24,
            offset: 12,
        }
    );
}
