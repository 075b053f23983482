# CamPC

An Android phone's camera as a webcam on the desktop. The phone announces itself over WiFi or is
found over USB; FFmpeg decodes its stream; the frames go to a virtual camera and to a preview.

* `src/` is the library: what the program decides and computes in whole numbers and texts, verified
  with Verus.
  * `engine`, `outside`: when to look for the phone, when to run FFmpeg, what to show, and what
    holds of it in every run.
  * `panel`: what the window does when the user does something to a control.
  * `reader`, `pixel_fmt`, `v4l2`: what becomes of FFmpeg's frames.
  * `ffmpeg`, `adb`, `discovery`, `config`, `text`: what other programs are called with, and what
    their answers and the phone's announcements mean.
  * `windows`: what is different on Windows, and the virtual camera of Media Foundation.
  * `tether`: the variant for a phone on a cable only, with selectable size and a zoom in the
    stream.
* `app/` is the program around it: the window and its floating-point geometry, the processes, the
  sockets, the devices and the files. Its Windows part needs the `windows` crate.
* `tests/` runs the library on concrete values.
