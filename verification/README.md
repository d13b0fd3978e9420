# crownotify

The notification daemon of CrownOS: it owns `org.freedesktop.Notifications`
and `io.crownos.crownotify` on the session bus and lists what arrives on a
layer-shell surface.

- `src/` is the verified library (Verus): the notification models, the
  notification list (arrival, do-not-disturb, expiry, presses on cards), the
  decisions behind the D-Bus methods (ids, capabilities, the notification each
  method delivers), the requests sent to the phone bridge, and the state and
  labels of the window.
- `app/` is the program around it: D-Bus interfaces (zbus), the event-loop
  wake-up (calloop), the layer-shell surface and its painting (vello, parley),
  and an iced front end.
- `tests/` runs the library on concrete values.
