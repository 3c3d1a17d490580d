# sysident

Step-response system identification (Ziegler–Nichols, Hägglund, Smith,
Sundaresan–Krishnaswamy, Mollenkamp, Smith second order).

- `src/` is the verified library: the choices these methods make among
  samples — the sample nearest a level, the point of steepest slope, the rows
  of Smith's table that enclose a time ratio — over order keys of doubles
  (`src/order_key.rs` states the encoding).
- `app/` is the command-line program: reading CSV files, the real-valued
  formulas of each method, simulation and plotting with `aule`.
