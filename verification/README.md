# pomodoro_mindfullness

A pomodoro timer that floats in a corner of a Wayland desktop. The library under
`src/` holds, verified with Verus, the decisions of the timer window's controller:
the corner it moves to (`corner`), what it shows in its settings and minimal focus
modes (`view`), the break countdown, the start of a break when a work period ends,
and the play and adjust buttons (`session`), the brown noise switch (`brown_noise`)
and the texts of its labels (`labels`). `app/` builds the GTK window, wires its
signals to those functions and carries out what they decide. It also declares the
`timer`, `config`, `audio` and `utils` modules (the timer's own counting, the
configuration file, the audio player, the time display), whose sources are not part
of this repository, so `app/` does not build on its own. The GTK crates in
`Cargo.toml` serve `app/` only.
