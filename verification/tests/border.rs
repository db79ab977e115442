use iced_border::border::{color, rounded, width};
use iced_border::{Border, Dash, Radius, Segments, Style};

type Rgba = [f32; 4];

const BLACK: Rgba = [0.0, 0.0, 0.0, 1.0];

#[test]
fn default_border_is_plain_and_zero() {
    let b: Border<Rgba, f32> = Border::default();
    assert_eq!(b.color, [0.0; 4]);
    assert_eq!(b.width, 0.0);
    assert_eq!(b.radius, Radius::new(0.0));
    assert_eq!(b.style, Style::Solid);
}

#[test]
fn border_constructors_match_default_builders() {
    assert_eq!(rounded::<Rgba, f32, _>(Radius::from(10.0)), Border::default().rounded(Radius::from(10.0)));
    assert_eq!(color::<Rgba, f32, _>(BLACK), Border::default().color(BLACK));
    assert_eq!(width::<Rgba, f32, _>(10.0), Border::default().width(10.0));
}

#[test]
fn setters_change_only_their_field() {
    let b: Border<Rgba, f32> = Border::default();
    let c = b.color(BLACK);
    assert_eq!((c.color, c.width, c.radius, c.style), (BLACK, b.width, b.radius, b.style));
    let w = b.width(3.0);
    assert_eq!((w.color, w.width, w.radius, w.style), (b.color, 3.0, b.radius, b.style));
    let r = b.rounded(Radius::new(16.0));
    assert_eq!((r.color, r.width, r.radius, r.style), (b.color, b.width, Radius::new(16.0), b.style));
    let s = b.style(Style::Dotted(Dash::new(0.0, 4.0)));
    assert_eq!(s.style, Style::Dotted(Dash { length: 0.0, gap: 4.0 }));
    assert_eq!((s.color, s.width, s.radius), (b.color, b.width, b.radius));
}

#[test]
fn dashes_and_dots_set_the_style() {
    let b: Border<Rgba, f32> = Border::default().width(3.0);
    let d = Dash::new(14.0, 6.0);
    assert_eq!(b.dashes(d), b.style(Style::Dashed(d)));
    assert_eq!(b.dots(d), b.style(Style::Dotted(d)));
    assert_eq!(b.dashes(d).style.pattern(), Some((d, false)));
    assert_eq!(b.dots(d).style.pattern(), Some((d, true)));
    assert_eq!(b.style.pattern(), None);
}

#[test]
fn later_writes_win_and_fields_commute() {
    let b: Border<Rgba, f32> = Border::default();
    assert_eq!(b.width(1.0).width(2.0), b.width(2.0));
    assert_eq!(b.color(BLACK).width(2.0), b.width(2.0).color(BLACK));
    assert_eq!(b.dashes(Dash::new(1.0, 2.0)).dots(Dash::new(3.0, 4.0)), b.dots(Dash::new(3.0, 4.0)));
}

#[test]
fn style_defaults_to_solid_and_patterns() {
    assert_eq!(Style::<f32>::default(), Style::Solid);
    assert_eq!(Style::<f32>::Solid.pattern(), None);
    let d: Dash<f32> = Dash::new(6.0f32, 4.0);
    assert_eq!(d.length, 6.0);
    assert_eq!(d.gap, 4.0);
    assert_eq!(Style::Dashed(d).pattern(), Some((d, false)));
    assert_eq!(Style::Dotted(d).pattern(), Some((d, true)));
}

#[test]
fn segments_hold_their_fields() {
    let s = Segments { on: 6.0f32, off: 4.0, rounded: false };
    assert_eq!((s.on, s.off, s.rounded), (6.0, 4.0, false));
}

#[test]
fn arguments_convert_into_the_field_types() {
    let base: Border<Rgba, f32> = Border::default().width(3.0).color(BLACK);
    assert_eq!(base.rounded(16.0).radius, Radius::new(16.0));
    assert_eq!(base.width(4u8).width, 4.0);
    assert_eq!(base.width(7u16).width, 7.0);
    let custom = base.dashes(Dash::new(14.0, 6.0));
    assert_eq!(custom.style, Style::Dashed(Dash { length: 14.0, gap: 6.0 }));
    let mixed: Dash<f32> = Dash::new(14u8, 6.5);
    assert_eq!((mixed.length, mixed.gap), (14.0, 6.5));
    let corners = base.rounded(Radius::default().top_left(16.0).bottom_right(16.0));
    assert_eq!(<[f32; 4]>::from(corners.radius), [16.0, 0.0, 16.0, 0.0]);
    assert_eq!(Radius::<f32>::new(2u16), Radius::new(2.0));
    assert_eq!(rounded::<Rgba, f32, _>(10.0).radius, Radius::new(10.0));
    assert_eq!(width::<Rgba, f32, _>(10u8).width, 10.0);
}
