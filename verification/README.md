# squish

The verified core of Squish, a desktop tool that compresses and converts images
(JPG, PNG, WebP, BMP, TIFF and GIF in; JPG, PNG and WebP out).

- `src/` is the library, written in Verus and verified:
  - `formats`: which extensions are images, the output extension and file name for each
    conversion mode, and the encoder for an output extension;
  - `options`: presets, conversion options, and the settings and warnings for one file;
  - `target`: the search for an encoding that fits a target file size, with its laws;
  - `scan`: source handling (folder or zip), the output folder, image discovery;
  - `convert`: conversion requests and where each image is written;
  - `paths`, `text`: path and string operations of the standard library, and string helpers.
- `tests/` exercises the library on concrete values.
- `app/` holds the parts that touch the file system, zip archives and image codecs, the
  floating-point resize and size-reduction arithmetic, and the serde shapes of the commands.
