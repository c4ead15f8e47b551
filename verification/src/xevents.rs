//! What is to be done about each event of the X server.

use vstd::prelude::*;
use crate::geometry::{ConfigWindowMask, WindowDims};
use crate::state::InnerServerState;
use crate::window::{WindowAttributes, WindowData, WmNormalHints};
use crate::windows;
use crate::windows::SizeHints;
use crate::world::SurfaceSerial;
use crate::xstate::{SetState, WmName};

verus! {

/// The atoms that events are told apart by.
#[derive(Clone, Copy, Debug, PartialEq, Eq, Structural)]
pub struct Atoms {
    pub wl_surface_id: u32,
    pub wl_surface_serial: u32,
    pub net_wm_state: u32,
    pub wm_fullscreen: u32,
    pub wm_hints: u32,
    pub wm_normal_hints: u32,
    pub wm_name: u32,
    pub net_wm_name: u32,
    pub wm_class: u32,
}

/// The first numbers of a client message.
#[derive(Clone, Copy, Debug, PartialEq, Eq, Structural)]
pub struct MessageData {
    pub first: u32,
    pub second: u32,
    pub third: u32,
}

/// An event of the X server.
#[derive(Clone, Copy, Debug, PartialEq, Eq, Structural)]
pub enum XEvent {
    CreateNotify { window: u32, parent: u32, override_redirect: bool, dims: WindowDims },
    ReparentNotify { window: u32, parent: u32 },
    MapRequest { window: u32 },
    MapNotify { window: u32 },
    ConfigureNotify { window: u32, dims: WindowDims },
    UnmapNotify { window: u32 },
    DestroyNotify { window: u32 },
    PropertyNotify { window: u32, atom: u32, new_value: bool },
    ConfigureRequest { window: u32, mask: ConfigWindowMask, dims: WindowDims },
    ClientMessage { window: u32, message: u32, data: MessageData },
    MappingNotify,
}

/// A property that a window is described by.
#[derive(Clone, Copy, Debug, PartialEq, Eq, Structural)]
pub enum WindowProperty {
    Hints,
    SizeHints,
    /// `WM_NAME`.
    Name,
    /// `_NET_WM_NAME`.
    NetName,
    Class,
}

/// What is to be done about an event.
#[derive(Clone, Copy, Debug, PartialEq, Eq, Structural)]
pub enum XAction {
    /// A window is there. With a parent other than the root it is a popup.
    NewWindow { window: u32, override_redirect: bool, dims: WindowDims, parent: Option<u32> },
    /// A window is there whose attributes have to be asked for.
    AdoptWindow { window: u32 },
    DestroyWindow { window: u32 },
    /// The X server is to map a window.
    MapWindow { window: u32 },
    /// The attributes of a window are to be asked for, after which it is mapped.
    Mapped { window: u32 },
    Reconfigure { window: u32, dims: WindowDims },
    Unmapped { window: u32 },
    /// A property is to be read again.
    ReadProperty { window: u32, property: WindowProperty },
    /// The X server is to configure a window as it asked.
    Configure { window: u32, mask: ConfigWindowMask, dims: WindowDims },
    SetSerial { window: u32, serial: SurfaceSerial },
    /// Whether a window is full screen is to change, and is asked for so many times.
    ChangeFullscreen { window: u32, action: SetState, times: u8 },
    /// The X server is too old: it ties windows to surfaces by id.
    SurfaceIdRefused,
    Ignore,
}

/// The attributes of a window that are asked for when it appears.
#[derive(Debug)]
pub struct FetchedAttributes {
    pub title: Option<WmName>,
    pub class: Option<String>,
    pub size_hints: Option<WmNormalHints>,
}

/// What a toplevel is to be told of attributes that changed.
#[derive(Debug)]
pub struct AttributeUpdate {
    pub title: Option<String>,
    pub app_id: Option<String>,
    pub size_hints: Option<SizeHints>,
}

/// The property that an atom stands for.
pub open spec fn property_of(atoms: Atoms, atom: u32) -> Option<WindowProperty> {
    if atom == atoms.wm_hints {
        Some(WindowProperty::Hints)
    } else if atom == atoms.wm_normal_hints {
        Some(WindowProperty::SizeHints)
    } else if atom == atoms.wm_name {
        Some(WindowProperty::Name)
    } else if atom == atoms.net_wm_name {
        Some(WindowProperty::NetName)
    } else if atom == atoms.wm_class {
        Some(WindowProperty::Class)
    } else {
        None
    }
}

/// How many of two states that a message names are the full screen state.
pub open spec fn fullscreen_count(atoms: Atoms, first: u32, second: u32) -> int {
    (if first == atoms.wm_fullscreen {
        1int
    } else {
        0
    }) + (if second == atoms.wm_fullscreen {
        1int
    } else {
        0
    })
}

/// What a message of a client asks for.
pub open spec fn message_action(
    atoms: Atoms,
    window: u32,
    message: u32,
    data: MessageData,
) -> XAction {
    if message == atoms.wl_surface_id {
        XAction::SurfaceIdRefused
    } else if message == atoms.wl_surface_serial {
        XAction::SetSerial { window, serial: SurfaceSerial { low: data.first, high: data.second } }
    } else if message == atoms.net_wm_state && data.first <= 2 && fullscreen_count(
        atoms,
        data.second,
        data.third,
    ) > 0 {
        XAction::ChangeFullscreen {
            window,
            action: if data.first == 0 {
                SetState::Remove
            } else if data.first == 1 {
                SetState::Add
            } else {
                SetState::Toggle
            },
            times: fullscreen_count(atoms, data.second, data.third) as u8,
        }
    } else {
        XAction::Ignore
    }
}

/// What is to be done about an event.
pub open spec fn action_for(event: XEvent, root: u32, atoms: Atoms) -> XAction {
    match event {
        XEvent::CreateNotify { window, parent, override_redirect, dims } => XAction::NewWindow {
            window,
            override_redirect,
            dims,
            parent: if parent == 0 || parent == root {
                None
            } else {
                Some(parent)
            },
        },
        XEvent::ReparentNotify { window, parent } => if parent == root {
            XAction::AdoptWindow { window }
        } else {
            XAction::DestroyWindow { window }
        },
        XEvent::MapRequest { window } => XAction::MapWindow { window },
        XEvent::MapNotify { window } => XAction::Mapped { window },
        XEvent::ConfigureNotify { window, dims } => XAction::Reconfigure { window, dims },
        XEvent::UnmapNotify { window } => XAction::Unmapped { window },
        XEvent::DestroyNotify { window } => XAction::DestroyWindow { window },
        XEvent::PropertyNotify { window, atom, new_value } => match property_of(atoms, atom) {
            Some(property) if new_value => XAction::ReadProperty { window, property },
            _ => XAction::Ignore,
        },
        XEvent::ConfigureRequest { window, mask, dims } => XAction::Configure {
            window,
            mask,
            dims,
        },
        XEvent::ClientMessage { window, message, data } => message_action(
            atoms,
            window,
            message,
            data,
        ),
        XEvent::MappingNotify => XAction::Ignore,
    }
}

/// The property that an atom stands for.
fn find_property(atoms: &Atoms, atom: u32) -> (property: Option<WindowProperty>)
    ensures
        property == property_of(*atoms, atom),
{
    if atom == atoms.wm_hints {
        Some(WindowProperty::Hints)
    } else if atom == atoms.wm_normal_hints {
        Some(WindowProperty::SizeHints)
    } else if atom == atoms.wm_name {
        Some(WindowProperty::Name)
    } else if atom == atoms.net_wm_name {
        Some(WindowProperty::NetName)
    } else if atom == atoms.wm_class {
        Some(WindowProperty::Class)
    } else {
        None
    }
}

/// What a message of a client asks for.
fn decide_message(atoms: &Atoms, window: u32, message: u32, data: MessageData) -> (action:
    XAction)
    ensures
        action == message_action(*atoms, window, message, data),
{
    if message == atoms.wl_surface_id {
        return XAction::SurfaceIdRefused;
    }
    if message == atoms.wl_surface_serial {
        return XAction::SetSerial {
            window,
            serial: SurfaceSerial { low: data.first, high: data.second },
        };
    }
    if message != atoms.net_wm_state {
        return XAction::Ignore;
    }
    let action = match SetState::from_number(data.first) {
        Some(action) => action,
        None => return XAction::Ignore,
    };
    let mut times: u8 = 0;
    if data.second == atoms.wm_fullscreen {
        times += 1;
    }
    if data.third == atoms.wm_fullscreen {
        times += 1;
    }
    if times == 0 {
        XAction::Ignore
    } else {
        XAction::ChangeFullscreen { window, action, times }
    }
}

/// Decides what is to be done about an event.
pub fn decide_event(event: XEvent, root: u32, atoms: &Atoms) -> (action: XAction)
    ensures
        action == action_for(event, root, *atoms),
{
    match event {
        XEvent::CreateNotify { window, parent, override_redirect, dims } => {
            let parent = if parent == 0 || parent == root {
                None
            } else {
                Some(parent)
            };
            XAction::NewWindow { window, override_redirect, dims, parent }
        },
        XEvent::ReparentNotify { window, parent } => {
            if parent == root {
                XAction::AdoptWindow { window }
            } else {
                XAction::DestroyWindow { window }
            }
        },
        XEvent::MapRequest { window } => XAction::MapWindow { window },
        XEvent::MapNotify { window } => XAction::Mapped { window },
        XEvent::ConfigureNotify { window, dims } => XAction::Reconfigure { window, dims },
        XEvent::UnmapNotify { window } => XAction::Unmapped { window },
        XEvent::DestroyNotify { window } => XAction::DestroyWindow { window },
        XEvent::PropertyNotify { window, atom, new_value } => {
            if !new_value {
                return XAction::Ignore;
            }
            match find_property(atoms, atom) {
                Some(property) => XAction::ReadProperty { window, property },
                None => XAction::Ignore,
            }
        },
        XEvent::ConfigureRequest { window, mask, dims } => XAction::Configure {
            window,
            mask,
            dims,
        },
        XEvent::ClientMessage { window, message, data } => decide_message(
            atoms,
            window,
            message,
            data,
        ),
        XEvent::MappingNotify => XAction::Ignore,
    }
}

/// The title of a window: `_NET_WM_NAME`, or else `WM_NAME`.
pub fn preferred_title(net: Option<WmName>, plain: Option<WmName>) -> (title: Option<WmName>)
    ensures
        title == (if net is Some {
            net
        } else {
            plain
        }),
{
    match net {
        Some(name) => Some(name),
        None => plain,
    }
}

impl InnerServerState {
    /// Takes over the attributes of a window. Returns what its toplevel is to be told.
    pub fn handle_window_attributes(&mut self, window: u32, attrs: FetchedAttributes) -> (update:
        AttributeUpdate)
        ensures
            ({
                let known = old(self).known(window);
                let entity = known->0;
                let current = windows::title_of(old(self).names(), entity);
                let toplevel = old(self).window_toplevel(window) is Some;
                let retitled = known is Some && (attrs.title matches Some(name)
                    && !windows::title_kept(current, name));
                &&& windows::text_of(update.title) == (if retitled && toplevel {
                    Some(attrs.title->0.text())
                } else {
                    None
                })
                &&& windows::text_of(update.app_id) == (if known is Some && toplevel {
                    windows::text_of(attrs.class)
                } else {
                    None
                })
                &&& windows::title_of(final(self).names(), entity) == (if retitled {
                    attrs.title
                } else {
                    current
                })
                &&& windows::class_of(final(self).names(), entity) == (if known is Some
                    && attrs.class is Some {
                    attrs.class
                } else {
                    windows::class_of(old(self).names(), entity)
                })
                &&& windows::token_of(final(self).names(), entity) == windows::token_of(
                    old(self).names(),
                    entity,
                )
                &&& final(self).names().remove(entity) == old(self).names().remove(entity)
                &&& known is None ==> final(self).names() == old(self).names()
            }),
            match (old(self).known(window), attrs.size_hints) {
                (Some(entity), Some(hints)) if old(self).data_of(window).attrs.size_hints != Some(
                    hints,
                ) => {
                    let data = old(self).data_of(window);
                    &&& final(self).parts() == old(self).parts_with_data(
                        entity,
                        WindowData {
                            attrs: WindowAttributes {
                                size_hints: Some(hints),
                                hints_x11_scale: old(self).published_x11_scale,
                                ..data.attrs
                            },
                            ..data
                        },
                    )
                    &&& update.size_hints == (match old(self).window_toplevel(window) {
                        Some(toplevel) => Some(
                            SizeHints {
                                hints,
                                x11_scale: old(self).published_x11_scale,
                                decorations_height: crate::decoration::height_of(
                                    toplevel.decoration.satellite,
                                ),
                            },
                        ),
                        None => None,
                    })
                },
                _ => update.size_hints is None && final(self).parts() == old(self).parts(),
            },
            *final(self) == (InnerServerState { world: final(self).world, ..*old(self) }),
            old(self).wf() ==> final(self).wf(),
            old(self).one_entity_each() ==> final(self).one_entity_each(),
    {
        let title = match attrs.title {
            Some(name) => self.set_win_title(window, name),
            None => None,
        };
        let app_id = match attrs.class {
            Some(class) => self.set_win_class(window, class),
            None => None,
        };
        let size_hints = match attrs.size_hints {
            Some(hints) => self.set_size_hints(window, hints),
            None => None,
        };
        AttributeUpdate { title, app_id, size_hints }
    }
}

/// Every event of the X server is about the window that it names, and does what its name says: a
/// window that is created, mapped, configured, unmapped or destroyed is taken note of with what the
/// event says of it. A window leaves the root with its parent and comes back with it.
pub proof fn law_events_mean_their_window(
    window: u32,
    parent: u32,
    root: u32,
    override_redirect: bool,
    dims: WindowDims,
    mask: ConfigWindowMask,
    atoms: Atoms,
)
    ensures
        action_for(
            XEvent::CreateNotify { window, parent, override_redirect, dims },
            root,
            atoms,
        ) matches XAction::NewWindow { window: w, override_redirect: o, dims: d, parent: p } && w
            == window && o == override_redirect && d == dims && (p is None <==> parent == 0
            || parent == root) && (p is Some ==> p == Some(parent)),
        parent == root ==> action_for(XEvent::ReparentNotify { window, parent }, root, atoms) == (
        XAction::AdoptWindow { window }),
        parent != root ==> action_for(XEvent::ReparentNotify { window, parent }, root, atoms) == (
        XAction::DestroyWindow { window }),
        action_for(XEvent::MapRequest { window }, root, atoms) == (XAction::MapWindow { window }),
        action_for(XEvent::MapNotify { window }, root, atoms) == (XAction::Mapped { window }),
        action_for(XEvent::UnmapNotify { window }, root, atoms) == (XAction::Unmapped { window }),
        action_for(XEvent::DestroyNotify { window }, root, atoms) == (XAction::DestroyWindow {
            window,
        }),
        action_for(XEvent::ConfigureNotify { window, dims }, root, atoms) == (XAction::Reconfigure {
            window,
            dims,
        }),
        action_for(XEvent::ConfigureRequest { window, mask, dims }, root, atoms) == (
        XAction::Configure { window, mask, dims }),
        action_for(XEvent::MappingNotify, root, atoms) == XAction::Ignore,
{
}

/// A property is read anew exactly if it is one that matters and it was not deleted.
pub proof fn law_properties_are_read_anew(
    atoms: Atoms,
    root: u32,
    window: u32,
    atom: u32,
    new_value: bool,
)
    ensures
        ({
            let action = action_for(
                XEvent::PropertyNotify { window, atom, new_value },
                root,
                atoms,
            );
            let matters = atom == atoms.wm_hints || atom == atoms.wm_normal_hints || atom
                == atoms.wm_name || atom == atoms.net_wm_name || atom == atoms.wm_class;
            let apart = atoms.wm_hints != atoms.wm_normal_hints && atoms.wm_hints != atoms.wm_name
                && atoms.wm_hints != atoms.net_wm_name && atoms.wm_hints != atoms.wm_class
                && atoms.wm_normal_hints != atoms.wm_name && atoms.wm_normal_hints
                != atoms.net_wm_name && atoms.wm_normal_hints != atoms.wm_class && atoms.wm_name
                != atoms.net_wm_name && atoms.wm_name != atoms.wm_class && atoms.net_wm_name
                != atoms.wm_class;
            &&& action is ReadProperty <==> new_value && matters
            &&& !(action is ReadProperty) ==> action == XAction::Ignore
            &&& action matches XAction::ReadProperty { window: w, property } ==> w == window && (
            apart ==> {
                &&& property is Hints <==> atom == atoms.wm_hints
                &&& property is SizeHints <==> atom == atoms.wm_normal_hints
                &&& property is Name <==> atom == atoms.wm_name
                &&& property is NetName <==> atom == atoms.net_wm_name
                &&& property is Class <==> atom == atoms.wm_class
            })
        }),
{
}

/// A message ties a surface to its window by both halves of the serial, or changes the full screen
/// state as often as it names it and as it says; any other message is ignored.
pub proof fn law_messages_are_understood(
    atoms: Atoms,
    window: u32,
    message: u32,
    data: MessageData,
)
    requires
        atoms.wl_surface_id != atoms.wl_surface_serial,
        atoms.wl_surface_id != atoms.net_wm_state,
        atoms.wl_surface_serial != atoms.net_wm_state,
    ensures
        ({
            let action = message_action(atoms, window, message, data);
            let full = data.second == atoms.wm_fullscreen || data.third == atoms.wm_fullscreen;
            &&& message == atoms.wl_surface_serial ==> action == (XAction::SetSerial {
                window,
                serial: SurfaceSerial { low: data.first, high: data.second },
            })
            &&& message == atoms.wl_surface_id ==> action == XAction::SurfaceIdRefused
            &&& action is ChangeFullscreen <==> message == atoms.net_wm_state && data.first <= 2
                && full
            &&& action matches XAction::ChangeFullscreen { window: w, action: change, times } ==> {
                &&& w == window
                &&& change is Remove <==> data.first == 0
                &&& change is Add <==> data.first == 1
                &&& change is Toggle <==> data.first == 2
                &&& times == 2 <==> data.second == atoms.wm_fullscreen && data.third
                    == atoms.wm_fullscreen
                &&& 1 <= times <= 2
            }
            &&& message != atoms.wl_surface_serial && message != atoms.wl_surface_id && message
                != atoms.net_wm_state ==> action == XAction::Ignore
        }),
{
}

} // verus!
