//! Visibility and change flags of the settings panel.
use vstd::prelude::*;

verus! {

/// What the settings panel remembers between frames: whether it is shown,
/// whether the settings were touched since they were last saved, and three
/// one-shot notifications that a consumer takes by reading them.
pub struct SettingsManager {
    visible: bool,
    dirty: bool,
    screen_capture_changed: bool,
    monitor_changed: bool,
    render_debug_window_changed: bool,
}

impl SettingsManager {
    pub closed spec fn spec_visible(&self) -> bool {
        self.visible
    }

    pub closed spec fn spec_dirty(&self) -> bool {
        self.dirty
    }

    pub closed spec fn spec_screen_capture_changed(&self) -> bool {
        self.screen_capture_changed
    }

    pub closed spec fn spec_monitor_changed(&self) -> bool {
        self.monitor_changed
    }

    pub closed spec fn spec_render_debug_window_changed(&self) -> bool {
        self.render_debug_window_changed
    }

    /// The panel starts hidden and clean, with every notification pending.
    pub fn new() -> (r: Self)
        ensures
            !r.spec_visible(),
            !r.spec_dirty(),
            r.spec_screen_capture_changed(),
            r.spec_monitor_changed(),
            r.spec_render_debug_window_changed(),
    {
        SettingsManager {
            visible: false,
            dirty: false,
            screen_capture_changed: true,
            monitor_changed: true,
            render_debug_window_changed: true,
        }
    }

    pub fn is_visible(&self) -> (r: bool)
        ensures
            r == self.spec_visible(),
    {
        self.visible
    }

    /// Shows or hides the panel. Hiding it marks the settings dirty.
    pub fn set_visible(&mut self, visible: bool)
        ensures
            final(self).spec_visible() == visible,
            final(self).spec_dirty() == (old(self).spec_dirty() || !visible),
            final(self).spec_screen_capture_changed() == old(self).spec_screen_capture_changed(),
            final(self).spec_monitor_changed() == old(self).spec_monitor_changed(),
            final(self).spec_render_debug_window_changed() == old(
                self,
            ).spec_render_debug_window_changed(),
    {
        self.visible = visible;
        if !visible {
            self.dirty = true;
        }
    }

    pub fn is_dirty(&self) -> (r: bool)
        ensures
            r == self.spec_dirty(),
    {
        self.dirty
    }

    /// Flips the panel between shown and hidden, with the effect of `set_visible`.
    pub fn toggle_visible(&mut self)
        ensures
            final(self).spec_visible() == !old(self).spec_visible(),
            final(self).spec_dirty() == (old(self).spec_dirty() || old(self).spec_visible()),
            final(self).spec_screen_capture_changed() == old(self).spec_screen_capture_changed(),
            final(self).spec_monitor_changed() == old(self).spec_monitor_changed(),
            final(self).spec_render_debug_window_changed() == old(
                self,
            ).spec_render_debug_window_changed(),
    {
        let shown = self.visible;
        self.set_visible(!shown);
    }

    pub fn set_dirty(&mut self, dirty: bool)
        ensures
            final(self).spec_dirty() == dirty,
            final(self).spec_visible() == old(self).spec_visible(),
            final(self).spec_screen_capture_changed() == old(self).spec_screen_capture_changed(),
            final(self).spec_monitor_changed() == old(self).spec_monitor_changed(),
            final(self).spec_render_debug_window_changed() == old(
                self,
            ).spec_render_debug_window_changed(),
    {
        self.dirty = dirty;
    }

    /// Takes the screen-capture notification: reports whether one was pending
    /// and leaves none pending.
    pub fn screen_capture_changed(&mut self) -> (r: bool)
        ensures
            r == old(self).spec_screen_capture_changed(),
            !final(self).spec_screen_capture_changed(),
            final(self).spec_visible() == old(self).spec_visible(),
            final(self).spec_dirty() == old(self).spec_dirty(),
            final(self).spec_monitor_changed() == old(self).spec_monitor_changed(),
            final(self).spec_render_debug_window_changed() == old(
                self,
            ).spec_render_debug_window_changed(),
    {
        let pending = self.screen_capture_changed;
        self.screen_capture_changed = false;
        pending
    }

    /// Takes the monitor notification: reports whether one was pending and
    /// leaves none pending.
    pub fn monitor_changed(&mut self) -> (r: bool)
        ensures
            r == old(self).spec_monitor_changed(),
            !final(self).spec_monitor_changed(),
            final(self).spec_visible() == old(self).spec_visible(),
            final(self).spec_dirty() == old(self).spec_dirty(),
            final(self).spec_screen_capture_changed() == old(self).spec_screen_capture_changed(),
            final(self).spec_render_debug_window_changed() == old(
                self,
            ).spec_render_debug_window_changed(),
    {
        let pending = self.monitor_changed;
        self.monitor_changed = false;
        pending
    }

    /// Takes the debug-window notification: reports whether one was pending
    /// and leaves none pending.
    pub fn render_debug_window_changed(&mut self) -> (r: bool)
        ensures
            r == old(self).spec_render_debug_window_changed(),
            !final(self).spec_render_debug_window_changed(),
            final(self).spec_visible() == old(self).spec_visible(),
            final(self).spec_dirty() == old(self).spec_dirty(),
            final(self).spec_screen_capture_changed() == old(self).spec_screen_capture_changed(),
            final(self).spec_monitor_changed() == old(self).spec_monitor_changed(),
    {
        let pending = self.render_debug_window_changed;
        self.render_debug_window_changed = false;
        pending
    }

    pub fn mark_screen_capture_changed(&mut self)
        ensures
            final(self).spec_screen_capture_changed(),
            final(self).spec_visible() == old(self).spec_visible(),
            final(self).spec_dirty() == old(self).spec_dirty(),
            final(self).spec_monitor_changed() == old(self).spec_monitor_changed(),
            final(self).spec_render_debug_window_changed() == old(
                self,
            ).spec_render_debug_window_changed(),
    {
        self.screen_capture_changed = true;
    }

    pub fn mark_monitor_changed(&mut self)
        ensures
            final(self).spec_monitor_changed(),
            final(self).spec_visible() == old(self).spec_visible(),
            final(self).spec_dirty() == old(self).spec_dirty(),
            final(self).spec_screen_capture_changed() == old(self).spec_screen_capture_changed(),
            final(self).spec_render_debug_window_changed() == old(
                self,
            ).spec_render_debug_window_changed(),
    {
        self.monitor_changed = true;
    }

    pub fn mark_render_debug_window_changed(&mut self)
        ensures
            final(self).spec_render_debug_window_changed(),
            final(self).spec_visible() == old(self).spec_visible(),
            final(self).spec_dirty() == old(self).spec_dirty(),
            final(self).spec_screen_capture_changed() == old(self).spec_screen_capture_changed(),
            final(self).spec_monitor_changed() == old(self).spec_monitor_changed(),
    {
        self.render_debug_window_changed = true;
    }
}

} // verus!
