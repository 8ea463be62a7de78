use vstd::prelude::*;

verus! {

/// A screen of the application that can ask to be replaced or covered by
/// another after each update.
pub trait Widget: Sized {
    /// What should follow this widget once it has been updated.
    fn next(&self) -> NextAction<Self>;
}

/// A widget's request to the dispatcher.
pub enum NextAction<W> {
    /// Keep the current widget.
    Stay,
    /// Show the given widget, keeping the current one as its parent.
    Push(W),
    /// Return to the parent widget; not acted on yet, the current one stays.
    Pop,
    /// Show the given widget in place of the current one.
    Replace(W),
}

/// Routes events to the current widget and switches widgets on request.
pub struct Dispatcher<W> {
    pub widget: W,
    pub parent: Option<W>,
}

impl<W> Dispatcher<W> {
    /// The dispatcher after acting on `action`.
    pub open spec fn after(self, action: NextAction<W>) -> Dispatcher<W> {
        match action {
            NextAction::Push(w) => Dispatcher { widget: w, parent: Some(self.widget) },
            NextAction::Replace(w) => Dispatcher { widget: w, parent: self.parent },
            _ => self,
        }
    }

    pub fn new(widget: W) -> (r: Dispatcher<W>)
        ensures
            r.widget == widget,
            r.parent is None,
    {
        Dispatcher { widget, parent: None }
    }

    /// Switches widgets as `action` asks.
    pub fn apply(&mut self, action: NextAction<W>)
        ensures
            *final(self) == old(self).after(action),
    {
        match action {
            NextAction::Push(w) => {
                let mut previous = w;
                std::mem::swap(&mut self.widget, &mut previous);
                self.parent = Some(previous);
            },
            NextAction::Replace(w) => {
                self.widget = w;
            },
            NextAction::Stay => {},
            NextAction::Pop => {},
        }
    }
}

impl<W: Widget> Dispatcher<W> {
    /// Asks the current widget what comes next and acts on it.
    pub fn update(&mut self)
        ensures
            exists|action: NextAction<W>| *final(self) == old(self).after(action),
    {
        let action = self.widget.next();
        self.apply(action);
    }
}

} // verus!
