//! The interface between the manager and the widgets of a window

use vstd::prelude::*;
use crate::event::configure::ConfigView;
use crate::event::manager::{ConfigureManager, Manager, ManagerView};
use crate::event::{Event, Response, WidgetId};
use crate::geom::Coord;
use crate::toolkit::{shell_calls, ShellCall, TkWindow};

verus! {

/// A widget tree, as the event manager sees it.
///
/// The trait is implemented by the root of a window's widgets, which passes
/// each call on to the widget it concerns. The manager makes no assumption
/// on what an implementation does but this one: a call leaves the manager
/// well formed. An implementation can reach the manager's state only
/// through the functions of [`Manager`] and [`ConfigureManager`], and each of
/// them keeps the state well formed; so every implementation meets it.
///
/// What a widget tree does when it is called is named by three relations,
/// [`Widget::sent`], [`Widget::configured`] and [`Widget::hit`]. A widget
/// tree that says nothing of itself leaves them as they are: they hold of
/// whatever it does. The contracts of the manager say, through them, which
/// call the manager makes, on what, and what it does with the answer.
pub trait Widget: Sized {
    /// What a call of [`Widget::send`] may do: the widgets `self` are sent
    /// `event` for the widget `id` while the manager is as `before`; they
    /// are `after_self` afterwards, the manager is as `after`, and the answer
    /// is `r`. Meanwhile the widgets have asked `calls` of the toolkit's
    /// window, which the two managers leave out.
    open spec fn sent(
        &self,
        before: ManagerView<()>,
        id: WidgetId,
        event: Event,
        after_self: &Self,
        after: ManagerView<()>,
        r: Response,
        calls: Seq<ShellCall>,
    ) -> bool {
        true
    }

    /// What a call of [`Widget::configure`] may do: the widgets `self` are
    /// presented to a walk that is as `walk`, at `depth`, while the manager
    /// is as `before`; they are `after_self` afterwards, the walk is as
    /// `after_walk` and the manager as `after`. Meanwhile the widgets have
    /// asked `calls` of the toolkit's window, which the two managers leave
    /// out.
    open spec fn configured(
        &self,
        walk: ConfigView,
        depth: u32,
        before: ManagerView<()>,
        after_self: &Self,
        after_walk: ConfigView,
        after: ManagerView<()>,
        calls: Seq<ShellCall>,
    ) -> bool {
        true
    }

    /// What a call of [`Widget::find_id`] may return: `r` for the position
    /// `coord`.
    open spec fn hit(&self, coord: Coord, r: Option<WidgetId>) -> bool {
        true
    }

    /// Deliver `event` to the widget `id`, and say what came of it.
    ///
    /// [`Response::Unhandled`] says that no widget took the event.
    fn send<S: TkWindow>(&mut self, mgr: &mut Manager<S>, id: WidgetId, event: Event) -> (r:
        Response)
        requires
            old(mgr).wf(),
        ensures
            final(mgr).wf(),
            exists|calls: Seq<ShellCall>| #[trigger]
                (*old(self)).sent(
                    old(mgr)@.bare(),
                    id,
                    event,
                    &*final(self),
                    final(mgr)@.bare(),
                    r,
                    calls,
                ) && shell_calls(old(mgr).shell(), calls, final(mgr).shell()),
    ;

    /// Walk the tree, and present each widget to `cmgr`, parents before
    /// children: a widget takes its new identifier from
    /// [`ConfigureManager::next_id`] and hands [`ConfigureManager::child`] to
    /// each of its children.
    fn configure<S: TkWindow>(&mut self, cmgr: ConfigureManager<S>)
        requires
            cmgr.cfg.wf(),
            cmgr.mgr.wf(),
        ensures
            final(cmgr.cfg).wf(),
            final(cmgr.mgr).wf(),
            exists|calls: Seq<ShellCall>| #[trigger]
                (*old(self)).configured(
                    old(cmgr.cfg)@,
                    cmgr.depth,
                    old(cmgr.mgr)@.bare(),
                    &*final(self),
                    final(cmgr.cfg)@,
                    final(cmgr.mgr)@.bare(),
                    calls,
                ) && shell_calls(old(cmgr.mgr).shell(), calls, final(cmgr.mgr).shell()),
    ;

    /// The widget at `coord`, if there is one.
    fn find_id(&self, coord: Coord) -> (r: Option<WidgetId>)
        ensures
            self.hit(coord, r),
    ;
}

/// The widgets `w0` have been sent `event` for the widget `id` and have
/// answered `r`, as [`Widget::sent`] says: the manager was as `before` and is
/// as `after`, the widgets are `w1`, and the toolkit's window has been asked
/// what the widgets asked of it, in turn, and nothing else.
pub open spec fn answered<W: Widget, S: TkWindow>(
    w0: W,
    before: ManagerView<S>,
    id: WidgetId,
    event: Event,
    w1: W,
    after: ManagerView<S>,
    r: Response,
) -> bool {
    exists|calls: Seq<ShellCall>| #[trigger]
        w0.sent(before.bare(), id, event, &w1, after.bare(), r, calls) && shell_calls(
            before.shell,
            calls,
            after.shell,
        )
}

/// The widgets `w0` have been presented to a walk, as
/// [`Widget::configured`] says: the walk was as `walk` and is as
/// `after_walk`, the manager was as `before` and is as `after`, the widgets
/// are `w1`, and the toolkit's window has been asked what the widgets asked
/// of it, in turn, and nothing else.
pub open spec fn set_up<W: Widget, S: TkWindow>(
    w0: W,
    walk: ConfigView,
    depth: u32,
    before: ManagerView<S>,
    w1: W,
    after_walk: ConfigView,
    after: ManagerView<S>,
) -> bool {
    exists|calls: Seq<ShellCall>| #[trigger]
        w0.configured(walk, depth, before.bare(), &w1, after_walk, after.bare(), calls)
            && shell_calls(before.shell, calls, after.shell)
}

} // verus!
