//! A widget kept by the framework, drawn on a target that writes down what
//! it is asked to do.

use sunder::retained::{after_render, DrawParameters, Next, Widget};
use sunder::widgets::button::{ImmediateState, PushButton};
use sunder::widgets::text_view::{LayoutCache, TextView};
use sunder::{Backend, Event, RenderedWidget, Size};

/// A target that measures ten pixels a character and keeps a list of the
/// texts it laid out and of those it drew.
#[derive(Default)]
struct Recorder {
    laid_out: Vec<String>,
    drawn: Vec<(String, i32, i32)>,
    broken: bool,
}

impl Backend for Recorder {
    type Error = String;
    type Output = usize;
}

impl Recorder {
    fn lay_out(&mut self, text: &str, _max_width: Option<u32>) -> Result<(String, Size), String> {
        if self.broken {
            return Err(format!("cannot lay out {text:?}"));
        }
        self.laid_out.push(text.to_string());
        let size = Size {
            width: 10 * text.chars().count() as u32,
            height: 20,
        };
        Ok((text.to_string(), size))
    }
}

impl RenderedWidget<Recorder> for TextView<'_> {
    type Cache = LayoutCache<String>;

    fn rectangle(&mut self, cache: &mut Self::Cache, backend: &mut Recorder) -> Result<Size, String> {
        self.rectangle_with(cache, |text, width| backend.lay_out(text, width))
    }

    fn render(&self, _: &(), cache: &mut Self::Cache, backend: &mut Recorder) -> Result<usize, String> {
        let draw = self.render_with(cache, |text, width| backend.lay_out(text, width))?;
        backend.drawn.push((draw.layout.clone(), draw.x, draw.y));
        Ok(backend.drawn.len())
    }
}

#[test]
fn new_widget_draws_with_default_state_and_cache() {
    let mut target = Recorder::default();
    let mut widget: Widget<TextView<'_>, LayoutCache<String>> = Widget::new(TextView::new("ready", None));

    assert_eq!(widget.render(&mut target), Ok(1));
    assert_eq!(target.laid_out, vec!["ready".to_string()]);
    assert_eq!(target.drawn, vec![("ready".to_string(), 0, 0)]);
}

#[test]
fn every_pass_draws_but_only_the_first_lays_out() {
    let mut target = Recorder::default();
    let mut widget: Widget<TextView<'_>, LayoutCache<String>> = Widget::new(TextView::new("ready", None));

    for pass in 1..=3usize {
        assert_eq!(widget.render(&mut target), Ok(pass));
    }
    assert_eq!(target.laid_out.len(), 1);
    assert_eq!(target.drawn.len(), 3);
}

#[test]
fn failure_of_the_target_comes_out_of_render() {
    let mut target = Recorder {
        broken: true,
        ..Recorder::default()
    };
    let mut widget: Widget<TextView<'_>, LayoutCache<String>> = Widget::new(TextView::new("ready", None));

    assert_eq!(widget.render(&mut target), Err("cannot lay out \"ready\"".to_string()));
    assert!(target.drawn.is_empty());

    target.broken = false;
    assert_eq!(widget.render(&mut target), Ok(1));
}

#[test]
fn rectangle_through_the_trait_measures_with_the_target() {
    let mut target = Recorder::default();
    let mut label = TextView::new("four", None);
    let mut cache = LayoutCache::default();
    assert_eq!(label.rectangle(&mut cache, &mut target), Ok(Size { width: 40, height: 20 }));
    assert_eq!(label.rectangle(&mut cache, &mut target), Ok(Size { width: 40, height: 20 }));
    assert_eq!(target.laid_out, vec!["four".to_string()]);
    assert!(target.drawn.is_empty());
}

#[test]
fn label_widget_asks_for_no_redraw() {
    let mut widget: Widget<TextView<'_>, LayoutCache<String>> = Widget::new(TextView::new("ready", None));
    assert!(!widget.handle_event(Event::Mouse { x: 1, y: 1 }));
}

#[test]
fn button_widget_starts_unpressed() {
    let button = PushButton::new(TextView::new("OK", None), Size { width: 30, height: 12 });
    let mut widget: Widget<PushButton<'_>, ()> = Widget::new(button);
    // The first pointer position off the button changes nothing, so the
    // state it started from was "not pressed".
    assert!(!widget.handle_event(Event::Mouse { x: 30, y: 0 }));
    assert!(widget.handle_event(Event::Mouse { x: 29, y: 0 }));
    assert!(!widget.handle_event(Event::Mouse { x: 28, y: 1 }));
    assert!(widget.handle_event(Event::Mouse { x: 28, y: 12 }));
    let _ = ImmediateState::default();
}

#[test]
fn success_waits_for_the_next_redraw() {
    assert_eq!(after_render::<usize, String>(Ok(3)), Next::AwaitRedraw);
    assert_eq!(after_render::<(), String>(Ok(())), Next::AwaitRedraw);
}

#[test]
fn failure_stops_the_loop_with_the_error() {
    assert_eq!(
        after_render::<usize, String>(Err("lost the surface".to_string())),
        Next::Stop("lost the surface".to_string())
    );
}

#[test]
fn loop_runs_until_the_target_fails() {
    let mut target = Recorder::default();
    let mut widget: Widget<TextView<'_>, LayoutCache<String>> = Widget::new(TextView::new("ready", None));
    let _parameters = DrawParameters {};

    let mut passes = 0;
    let stopped = loop {
        if passes == 4 {
            // From here on the target can no longer draw.
            widget = Widget::new(TextView::new("later", None));
            target.broken = true;
        }
        match after_render(widget.render(&mut target)) {
            Next::AwaitRedraw => passes += 1,
            Next::Stop(error) => break error,
        }
    };
    assert_eq!(passes, 4);
    assert_eq!(stopped, "cannot lay out \"later\"");
    assert_eq!(target.drawn.len(), 4);
}
