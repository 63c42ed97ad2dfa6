//! Tokens da linguagem kaju e sua posição no código-fonte.

use vstd::prelude::*;
use crate::texto::{caracteres, igual_literal};

verus! {

/// Posição de um trecho no código-fonte: `linha` e `coluna` começam em 1;
/// `comprimento` é o número de caracteres do trecho.
#[derive(Clone, Copy, Debug, PartialEq, Eq, Structural)]
pub struct Span {
    pub linha: usize,
    pub coluna: usize,
    pub comprimento: usize,
}

impl Span {
    pub fn novo(linha: usize, coluna: usize, comprimento: usize) -> (s: Span)
        ensures
            s == (Span { linha, coluna, comprimento }),
    {
        Span { linha, coluna, comprimento }
    }
}

/// Um pedaço de um texto interpolado `$"..."`: trecho literal ou código entre `{}`.
#[derive(Debug, PartialEq)]
pub enum Pedaco {
    Lit(String),
    Cod(String),
}

impl Clone for Pedaco {
    fn clone(&self) -> (r: Self)
        ensures
            r == *self,
    {
        match self {
            Pedaco::Lit(s) => Pedaco::Lit(s.clone()),
            Pedaco::Cod(s) => Pedaco::Cod(s.clone()),
        }
    }
}

/// Tipo (categoria) de um token. Um literal decimal guarda o seu texto, tal
/// como escrito no código-fonte; quem avalia o programa o converte em número.
#[derive(Debug, PartialEq)]
pub enum TipoToken {
    // Literais
    Inteiro(i64),
    Decimal(String),
    Texto(String),
    TextoInterp(Vec<Pedaco>),
    Identificador(String),
    // Palavras-chave
    Var,
    Constante,
    Funcao,
    Retorne,
    Se,
    Senao,
    SenaoSe,
    Escolha,
    Caso,
    Padrao,
    Enquanto,
    Para,
    Cada,
    Em,
    De,
    Ate,
    Passo,
    Pare,
    Continue,
    E,
    Ou,
    Nao,
    Verdadeiro,
    Falso,
    Nulo,
    Classe,
    Herda,
    Metodo,
    Construtor,
    Novo,
    Isto,
    Base,
    Estatico,
    Tente,
    Capture,
    Finalmente,
    Lance,
    Importe,
    Como,
    // Símbolos
    Mais,
    Menos,
    Estrela,
    Barra,
    Porcento,
    MaisIgual,
    MenosIgual,
    EstrelaIgual,
    BarraIgual,
    PorcentoIgual,
    EBit,
    OuBit,
    OuExclusivo,
    Til,
    DeslocaEsq,
    DeslocaDir,
    IgualIgual,
    Diferente,
    Menor,
    Maior,
    MenorIgual,
    MaiorIgual,
    Igual,
    ParenEsq,
    ParenDir,
    ChaveEsq,
    ChaveDir,
    ColcheteEsq,
    ColcheteDir,
    Virgula,
    DoisPontos,
    Ponto,
    Reticencias,
    Interrogacao,
    FimDeArquivo,
}

/// O número da categoria de um token (o mesmo para todos os valores de uma
/// variante, qualquer que seja o conteúdo).
pub open spec fn categoria(t: TipoToken) -> nat {
    match t {
        TipoToken::Inteiro(_) => 0,
        TipoToken::Decimal(_) => 1,
        TipoToken::Texto(_) => 2,
        TipoToken::TextoInterp(_) => 3,
        TipoToken::Identificador(_) => 4,
        TipoToken::Var => 5,
        TipoToken::Constante => 6,
        TipoToken::Funcao => 7,
        TipoToken::Retorne => 8,
        TipoToken::Se => 9,
        TipoToken::Senao => 10,
        TipoToken::SenaoSe => 11,
        TipoToken::Escolha => 12,
        TipoToken::Caso => 13,
        TipoToken::Padrao => 14,
        TipoToken::Enquanto => 15,
        TipoToken::Para => 16,
        TipoToken::Cada => 17,
        TipoToken::Em => 18,
        TipoToken::De => 19,
        TipoToken::Ate => 20,
        TipoToken::Passo => 21,
        TipoToken::Pare => 22,
        TipoToken::Continue => 23,
        TipoToken::E => 24,
        TipoToken::Ou => 25,
        TipoToken::Nao => 26,
        TipoToken::Verdadeiro => 27,
        TipoToken::Falso => 28,
        TipoToken::Nulo => 29,
        TipoToken::Classe => 30,
        TipoToken::Herda => 31,
        TipoToken::Metodo => 32,
        TipoToken::Construtor => 33,
        TipoToken::Novo => 34,
        TipoToken::Isto => 35,
        TipoToken::Base => 36,
        TipoToken::Estatico => 37,
        TipoToken::Tente => 38,
        TipoToken::Capture => 39,
        TipoToken::Finalmente => 40,
        TipoToken::Lance => 41,
        TipoToken::Importe => 42,
        TipoToken::Como => 43,
        TipoToken::Mais => 44,
        TipoToken::Menos => 45,
        TipoToken::Estrela => 46,
        TipoToken::Barra => 47,
        TipoToken::Porcento => 48,
        TipoToken::MaisIgual => 49,
        TipoToken::MenosIgual => 50,
        TipoToken::EstrelaIgual => 51,
        TipoToken::BarraIgual => 52,
        TipoToken::PorcentoIgual => 53,
        TipoToken::EBit => 54,
        TipoToken::OuBit => 55,
        TipoToken::OuExclusivo => 56,
        TipoToken::Til => 57,
        TipoToken::DeslocaEsq => 58,
        TipoToken::DeslocaDir => 59,
        TipoToken::IgualIgual => 60,
        TipoToken::Diferente => 61,
        TipoToken::Menor => 62,
        TipoToken::Maior => 63,
        TipoToken::MenorIgual => 64,
        TipoToken::MaiorIgual => 65,
        TipoToken::Igual => 66,
        TipoToken::ParenEsq => 67,
        TipoToken::ParenDir => 68,
        TipoToken::ChaveEsq => 69,
        TipoToken::ChaveDir => 70,
        TipoToken::ColcheteEsq => 71,
        TipoToken::ColcheteDir => 72,
        TipoToken::Virgula => 73,
        TipoToken::DoisPontos => 74,
        TipoToken::Ponto => 75,
        TipoToken::Reticencias => 76,
        TipoToken::Interrogacao => 77,
        TipoToken::FimDeArquivo => 78,
    }
}

impl TipoToken {
    /// A categoria do token (ver `categoria`).
    pub fn numero_categoria(&self) -> (n: u8)
        ensures
            n as nat == categoria(*self),
    {
        match self {
            TipoToken::Inteiro(_) => 0,
            TipoToken::Decimal(_) => 1,
            TipoToken::Texto(_) => 2,
            TipoToken::TextoInterp(_) => 3,
            TipoToken::Identificador(_) => 4,
            TipoToken::Var => 5,
            TipoToken::Constante => 6,
            TipoToken::Funcao => 7,
            TipoToken::Retorne => 8,
            TipoToken::Se => 9,
            TipoToken::Senao => 10,
            TipoToken::SenaoSe => 11,
            TipoToken::Escolha => 12,
            TipoToken::Caso => 13,
            TipoToken::Padrao => 14,
            TipoToken::Enquanto => 15,
            TipoToken::Para => 16,
            TipoToken::Cada => 17,
            TipoToken::Em => 18,
            TipoToken::De => 19,
            TipoToken::Ate => 20,
            TipoToken::Passo => 21,
            TipoToken::Pare => 22,
            TipoToken::Continue => 23,
            TipoToken::E => 24,
            TipoToken::Ou => 25,
            TipoToken::Nao => 26,
            TipoToken::Verdadeiro => 27,
            TipoToken::Falso => 28,
            TipoToken::Nulo => 29,
            TipoToken::Classe => 30,
            TipoToken::Herda => 31,
            TipoToken::Metodo => 32,
            TipoToken::Construtor => 33,
            TipoToken::Novo => 34,
            TipoToken::Isto => 35,
            TipoToken::Base => 36,
            TipoToken::Estatico => 37,
            TipoToken::Tente => 38,
            TipoToken::Capture => 39,
            TipoToken::Finalmente => 40,
            TipoToken::Lance => 41,
            TipoToken::Importe => 42,
            TipoToken::Como => 43,
            TipoToken::Mais => 44,
            TipoToken::Menos => 45,
            TipoToken::Estrela => 46,
            TipoToken::Barra => 47,
            TipoToken::Porcento => 48,
            TipoToken::MaisIgual => 49,
            TipoToken::MenosIgual => 50,
            TipoToken::EstrelaIgual => 51,
            TipoToken::BarraIgual => 52,
            TipoToken::PorcentoIgual => 53,
            TipoToken::EBit => 54,
            TipoToken::OuBit => 55,
            TipoToken::OuExclusivo => 56,
            TipoToken::Til => 57,
            TipoToken::DeslocaEsq => 58,
            TipoToken::DeslocaDir => 59,
            TipoToken::IgualIgual => 60,
            TipoToken::Diferente => 61,
            TipoToken::Menor => 62,
            TipoToken::Maior => 63,
            TipoToken::MenorIgual => 64,
            TipoToken::MaiorIgual => 65,
            TipoToken::Igual => 66,
            TipoToken::ParenEsq => 67,
            TipoToken::ParenDir => 68,
            TipoToken::ChaveEsq => 69,
            TipoToken::ChaveDir => 70,
            TipoToken::ColcheteEsq => 71,
            TipoToken::ColcheteDir => 72,
            TipoToken::Virgula => 73,
            TipoToken::DoisPontos => 74,
            TipoToken::Ponto => 75,
            TipoToken::Reticencias => 76,
            TipoToken::Interrogacao => 77,
            TipoToken::FimDeArquivo => 78,
        }
    }

    /// Se os dois tokens são da mesma categoria (ignora o conteúdo).
    pub fn mesma_categoria(&self, outro: &TipoToken) -> (r: bool)
        ensures
            r == (categoria(*self) == categoria(*outro)),
    {
        self.numero_categoria() == outro.numero_categoria()
    }
}

impl Clone for TipoToken {
    fn clone(&self) -> (r: Self)
        ensures
            categoria(r) == categoria(*self),
            !(self is TextoInterp) ==> r == *self,
            self is TextoInterp ==> r->TextoInterp_0@ == self->TextoInterp_0@,
    {
        match self {
            TipoToken::Inteiro(n) => TipoToken::Inteiro(*n),
            TipoToken::Decimal(s) => TipoToken::Decimal(s.clone()),
            TipoToken::Texto(s) => TipoToken::Texto(s.clone()),
            TipoToken::TextoInterp(v) => {
                let mut w: Vec<Pedaco> = Vec::new();
                let mut i: usize = 0;
                while i < v.len()
                    invariant
                        i <= v@.len(),
                        w@ == v@.subrange(0, i as int),
                    decreases v@.len() - i,
                {
                    w.push(v[i].clone());
                    i = i + 1;
                    assert(w@ =~= v@.subrange(0, i as int));
                }
                assert(v@.subrange(0, v@.len() as int) =~= v@);
                TipoToken::TextoInterp(w)
            },
            TipoToken::Identificador(s) => TipoToken::Identificador(s.clone()),
            TipoToken::Var => TipoToken::Var,
            TipoToken::Constante => TipoToken::Constante,
            TipoToken::Funcao => TipoToken::Funcao,
            TipoToken::Retorne => TipoToken::Retorne,
            TipoToken::Se => TipoToken::Se,
            TipoToken::Senao => TipoToken::Senao,
            TipoToken::SenaoSe => TipoToken::SenaoSe,
            TipoToken::Escolha => TipoToken::Escolha,
            TipoToken::Caso => TipoToken::Caso,
            TipoToken::Padrao => TipoToken::Padrao,
            TipoToken::Enquanto => TipoToken::Enquanto,
            TipoToken::Para => TipoToken::Para,
            TipoToken::Cada => TipoToken::Cada,
            TipoToken::Em => TipoToken::Em,
            TipoToken::De => TipoToken::De,
            TipoToken::Ate => TipoToken::Ate,
            TipoToken::Passo => TipoToken::Passo,
            TipoToken::Pare => TipoToken::Pare,
            TipoToken::Continue => TipoToken::Continue,
            TipoToken::E => TipoToken::E,
            TipoToken::Ou => TipoToken::Ou,
            TipoToken::Nao => TipoToken::Nao,
            TipoToken::Verdadeiro => TipoToken::Verdadeiro,
            TipoToken::Falso => TipoToken::Falso,
            TipoToken::Nulo => TipoToken::Nulo,
            TipoToken::Classe => TipoToken::Classe,
            TipoToken::Herda => TipoToken::Herda,
            TipoToken::Metodo => TipoToken::Metodo,
            TipoToken::Construtor => TipoToken::Construtor,
            TipoToken::Novo => TipoToken::Novo,
            TipoToken::Isto => TipoToken::Isto,
            TipoToken::Base => TipoToken::Base,
            TipoToken::Estatico => TipoToken::Estatico,
            TipoToken::Tente => TipoToken::Tente,
            TipoToken::Capture => TipoToken::Capture,
            TipoToken::Finalmente => TipoToken::Finalmente,
            TipoToken::Lance => TipoToken::Lance,
            TipoToken::Importe => TipoToken::Importe,
            TipoToken::Como => TipoToken::Como,
            TipoToken::Mais => TipoToken::Mais,
            TipoToken::Menos => TipoToken::Menos,
            TipoToken::Estrela => TipoToken::Estrela,
            TipoToken::Barra => TipoToken::Barra,
            TipoToken::Porcento => TipoToken::Porcento,
            TipoToken::MaisIgual => TipoToken::MaisIgual,
            TipoToken::MenosIgual => TipoToken::MenosIgual,
            TipoToken::EstrelaIgual => TipoToken::EstrelaIgual,
            TipoToken::BarraIgual => TipoToken::BarraIgual,
            TipoToken::PorcentoIgual => TipoToken::PorcentoIgual,
            TipoToken::EBit => TipoToken::EBit,
            TipoToken::OuBit => TipoToken::OuBit,
            TipoToken::OuExclusivo => TipoToken::OuExclusivo,
            TipoToken::Til => TipoToken::Til,
            TipoToken::DeslocaEsq => TipoToken::DeslocaEsq,
            TipoToken::DeslocaDir => TipoToken::DeslocaDir,
            TipoToken::IgualIgual => TipoToken::IgualIgual,
            TipoToken::Diferente => TipoToken::Diferente,
            TipoToken::Menor => TipoToken::Menor,
            TipoToken::Maior => TipoToken::Maior,
            TipoToken::MenorIgual => TipoToken::MenorIgual,
            TipoToken::MaiorIgual => TipoToken::MaiorIgual,
            TipoToken::Igual => TipoToken::Igual,
            TipoToken::ParenEsq => TipoToken::ParenEsq,
            TipoToken::ParenDir => TipoToken::ParenDir,
            TipoToken::ChaveEsq => TipoToken::ChaveEsq,
            TipoToken::ChaveDir => TipoToken::ChaveDir,
            TipoToken::ColcheteEsq => TipoToken::ColcheteEsq,
            TipoToken::ColcheteDir => TipoToken::ColcheteDir,
            TipoToken::Virgula => TipoToken::Virgula,
            TipoToken::DoisPontos => TipoToken::DoisPontos,
            TipoToken::Ponto => TipoToken::Ponto,
            TipoToken::Reticencias => TipoToken::Reticencias,
            TipoToken::Interrogacao => TipoToken::Interrogacao,
            TipoToken::FimDeArquivo => TipoToken::FimDeArquivo,
        }
    }
}

/// Um token: seu tipo, o texto como foi escrito (lexema) e onde ele está.
#[derive(Debug)]
pub struct Token {
    pub tipo: TipoToken,
    pub lexema: String,
    pub span: Span,
}

impl Clone for Token {
    fn clone(&self) -> (r: Self)
        ensures
            r.lexema == self.lexema,
            r.span == self.span,
            categoria(r.tipo) == categoria(self.tipo),
            !(self.tipo is TextoInterp) ==> r.tipo == self.tipo,
            self.tipo is TextoInterp ==> r.tipo->TextoInterp_0@ == self.tipo->TextoInterp_0@,
    {
        Token { tipo: self.tipo.clone(), lexema: self.lexema.clone(), span: self.span }
    }
}

impl Token {
    pub fn novo(tipo: TipoToken, lexema: String, span: Span) -> (t: Token)
        ensures
            t == (Token { tipo, lexema, span }),
    {
        Token { tipo, lexema, span }
    }
}

/// A palavra-chave escrita por `s`, se for uma.
pub open spec fn palavra_chave_spec(s: Seq<char>) -> Option<TipoToken> {
    if s == "var"@ { Some(TipoToken::Var) }
    else if s == "constante"@ { Some(TipoToken::Constante) }
    else if s == "funcao"@ { Some(TipoToken::Funcao) }
    else if s == "retorne"@ { Some(TipoToken::Retorne) }
    else if s == "se"@ { Some(TipoToken::Se) }
    else if s == "senao"@ { Some(TipoToken::Senao) }
    else if s == "senaose"@ { Some(TipoToken::SenaoSe) }
    else if s == "escolha"@ { Some(TipoToken::Escolha) }
    else if s == "caso"@ { Some(TipoToken::Caso) }
    else if s == "padrao"@ { Some(TipoToken::Padrao) }
    else if s == "enquanto"@ { Some(TipoToken::Enquanto) }
    else if s == "para"@ { Some(TipoToken::Para) }
    else if s == "cada"@ { Some(TipoToken::Cada) }
    else if s == "em"@ { Some(TipoToken::Em) }
    else if s == "de"@ { Some(TipoToken::De) }
    else if s == "ate"@ { Some(TipoToken::Ate) }
    else if s == "passo"@ { Some(TipoToken::Passo) }
    else if s == "pare"@ { Some(TipoToken::Pare) }
    else if s == "continue"@ { Some(TipoToken::Continue) }
    else if s == "e"@ { Some(TipoToken::E) }
    else if s == "ou"@ { Some(TipoToken::Ou) }
    else if s == "nao"@ { Some(TipoToken::Nao) }
    else if s == "verdadeiro"@ { Some(TipoToken::Verdadeiro) }
    else if s == "falso"@ { Some(TipoToken::Falso) }
    else if s == "nulo"@ { Some(TipoToken::Nulo) }
    else if s == "classe"@ { Some(TipoToken::Classe) }
    else if s == "herda"@ { Some(TipoToken::Herda) }
    else if s == "metodo"@ { Some(TipoToken::Metodo) }
    else if s == "construtor"@ { Some(TipoToken::Construtor) }
    else if s == "novo"@ { Some(TipoToken::Novo) }
    else if s == "isto"@ { Some(TipoToken::Isto) }
    else if s == "base"@ { Some(TipoToken::Base) }
    else if s == "estatico"@ { Some(TipoToken::Estatico) }
    else if s == "tente"@ { Some(TipoToken::Tente) }
    else if s == "capture"@ { Some(TipoToken::Capture) }
    else if s == "finalmente"@ { Some(TipoToken::Finalmente) }
    else if s == "lance"@ { Some(TipoToken::Lance) }
    else if s == "importe"@ { Some(TipoToken::Importe) }
    else if s == "como"@ { Some(TipoToken::Como) }
    else { None }
}

/// Como cada palavra-chave se escreve, conforme a documentação da linguagem;
/// os demais tokens não são palavras-chave.
pub open spec fn grafia(t: TipoToken) -> Option<Seq<char>> {
    match t {
        TipoToken::Var => Some("var"@),
        TipoToken::Constante => Some("constante"@),
        TipoToken::Funcao => Some("funcao"@),
        TipoToken::Retorne => Some("retorne"@),
        TipoToken::Se => Some("se"@),
        TipoToken::Senao => Some("senao"@),
        TipoToken::SenaoSe => Some("senaose"@),
        TipoToken::Escolha => Some("escolha"@),
        TipoToken::Caso => Some("caso"@),
        TipoToken::Padrao => Some("padrao"@),
        TipoToken::Enquanto => Some("enquanto"@),
        TipoToken::Para => Some("para"@),
        TipoToken::Cada => Some("cada"@),
        TipoToken::Em => Some("em"@),
        TipoToken::De => Some("de"@),
        TipoToken::Ate => Some("ate"@),
        TipoToken::Passo => Some("passo"@),
        TipoToken::Pare => Some("pare"@),
        TipoToken::Continue => Some("continue"@),
        TipoToken::E => Some("e"@),
        TipoToken::Ou => Some("ou"@),
        TipoToken::Nao => Some("nao"@),
        TipoToken::Verdadeiro => Some("verdadeiro"@),
        TipoToken::Falso => Some("falso"@),
        TipoToken::Nulo => Some("nulo"@),
        TipoToken::Classe => Some("classe"@),
        TipoToken::Herda => Some("herda"@),
        TipoToken::Metodo => Some("metodo"@),
        TipoToken::Construtor => Some("construtor"@),
        TipoToken::Novo => Some("novo"@),
        TipoToken::Isto => Some("isto"@),
        TipoToken::Base => Some("base"@),
        TipoToken::Estatico => Some("estatico"@),
        TipoToken::Tente => Some("tente"@),
        TipoToken::Capture => Some("capture"@),
        TipoToken::Finalmente => Some("finalmente"@),
        TipoToken::Lance => Some("lance"@),
        TipoToken::Importe => Some("importe"@),
        TipoToken::Como => Some("como"@),
        _ => None,
    }
}

/// As palavras-chave: cada grafia documentada dá o seu próprio token, e só
/// ela; em particular, palavras diferentes nunca dão o mesmo token.
pub proof fn lei_palavras_chave(s: Seq<char>, t: TipoToken)
    ensures
        palavra_chave_spec(s) == Some(t) ==> grafia(t) == Some(s),
        grafia(t) == Some(s) ==> palavra_chave_spec(s) == Some(t),
{
    reveal_strlit("var");
    reveal_strlit("constante");
    reveal_strlit("funcao");
    reveal_strlit("retorne");
    reveal_strlit("se");
    reveal_strlit("senao");
    reveal_strlit("senaose");
    reveal_strlit("escolha");
    reveal_strlit("caso");
    reveal_strlit("padrao");
    reveal_strlit("enquanto");
    reveal_strlit("para");
    reveal_strlit("cada");
    reveal_strlit("em");
    reveal_strlit("de");
    reveal_strlit("ate");
    reveal_strlit("passo");
    reveal_strlit("pare");
    reveal_strlit("continue");
    reveal_strlit("e");
    reveal_strlit("ou");
    reveal_strlit("nao");
    reveal_strlit("verdadeiro");
    reveal_strlit("falso");
    reveal_strlit("nulo");
    reveal_strlit("classe");
    reveal_strlit("herda");
    reveal_strlit("metodo");
    reveal_strlit("construtor");
    reveal_strlit("novo");
    reveal_strlit("isto");
    reveal_strlit("base");
    reveal_strlit("estatico");
    reveal_strlit("tente");
    reveal_strlit("capture");
    reveal_strlit("finalmente");
    reveal_strlit("lance");
    reveal_strlit("importe");
    reveal_strlit("como");
    match t {
        TipoToken::Var => {
            assert(palavra_chave_spec("var"@) == Some(TipoToken::Var));
        },
        TipoToken::Constante => {
            assert("constante"@.len() != "var"@.len());
            assert("constante"@ != "var"@);
            assert(palavra_chave_spec("constante"@) == Some(TipoToken::Constante));
        },
        TipoToken::Funcao => {
            assert("funcao"@.len() != "var"@.len());
            assert("funcao"@ != "var"@);
            assert("funcao"@.len() != "constante"@.len());
            assert("funcao"@ != "constante"@);
            assert(palavra_chave_spec("funcao"@) == Some(TipoToken::Funcao));
        },
        TipoToken::Retorne => {
            assert("retorne"@.len() != "var"@.len());
            assert("retorne"@ != "var"@);
            assert("retorne"@.len() != "constante"@.len());
            assert("retorne"@ != "constante"@);
            assert("retorne"@.len() != "funcao"@.len());
            assert("retorne"@ != "funcao"@);
            assert(palavra_chave_spec("retorne"@) == Some(TipoToken::Retorne));
        },
        TipoToken::Se => {
            assert("se"@.len() != "var"@.len());
            assert("se"@ != "var"@);
            assert("se"@.len() != "constante"@.len());
            assert("se"@ != "constante"@);
            assert("se"@.len() != "funcao"@.len());
            assert("se"@ != "funcao"@);
            assert("se"@.len() != "retorne"@.len());
            assert("se"@ != "retorne"@);
            assert(palavra_chave_spec("se"@) == Some(TipoToken::Se));
        },
        TipoToken::Senao => {
            assert("senao"@.len() != "var"@.len());
            assert("senao"@ != "var"@);
            assert("senao"@.len() != "constante"@.len());
            assert("senao"@ != "constante"@);
            assert("senao"@.len() != "funcao"@.len());
            assert("senao"@ != "funcao"@);
            assert("senao"@.len() != "retorne"@.len());
            assert("senao"@ != "retorne"@);
            assert("senao"@.len() != "se"@.len());
            assert("senao"@ != "se"@);
            assert(palavra_chave_spec("senao"@) == Some(TipoToken::Senao));
        },
        TipoToken::SenaoSe => {
            assert("senaose"@.len() != "var"@.len());
            assert("senaose"@ != "var"@);
            assert("senaose"@.len() != "constante"@.len());
            assert("senaose"@ != "constante"@);
            assert("senaose"@.len() != "funcao"@.len());
            assert("senaose"@ != "funcao"@);
            assert("senaose"@[0] != "retorne"@[0]);
            assert("senaose"@ != "retorne"@);
            assert("senaose"@.len() != "se"@.len());
            assert("senaose"@ != "se"@);
            assert("senaose"@.len() != "senao"@.len());
            assert("senaose"@ != "senao"@);
            assert(palavra_chave_spec("senaose"@) == Some(TipoToken::SenaoSe));
        },
        TipoToken::Escolha => {
            assert("escolha"@.len() != "var"@.len());
            assert("escolha"@ != "var"@);
            assert("escolha"@.len() != "constante"@.len());
            assert("escolha"@ != "constante"@);
            assert("escolha"@.len() != "funcao"@.len());
            assert("escolha"@ != "funcao"@);
            assert("escolha"@[0] != "retorne"@[0]);
            assert("escolha"@ != "retorne"@);
            assert("escolha"@.len() != "se"@.len());
            assert("escolha"@ != "se"@);
            assert("escolha"@.len() != "senao"@.len());
            assert("escolha"@ != "senao"@);
            assert("escolha"@[0] != "senaose"@[0]);
            assert("escolha"@ != "senaose"@);
            assert(palavra_chave_spec("escolha"@) == Some(TipoToken::Escolha));
        },
        TipoToken::Caso => {
            assert("caso"@.len() != "var"@.len());
            assert("caso"@ != "var"@);
            assert("caso"@.len() != "constante"@.len());
            assert("caso"@ != "constante"@);
            assert("caso"@.len() != "funcao"@.len());
            assert("caso"@ != "funcao"@);
            assert("caso"@.len() != "retorne"@.len());
            assert("caso"@ != "retorne"@);
            assert("caso"@.len() != "se"@.len());
            assert("caso"@ != "se"@);
            assert("caso"@.len() != "senao"@.len());
            assert("caso"@ != "senao"@);
            assert("caso"@.len() != "senaose"@.len());
            assert("caso"@ != "senaose"@);
            assert("caso"@.len() != "escolha"@.len());
            assert("caso"@ != "escolha"@);
            assert(palavra_chave_spec("caso"@) == Some(TipoToken::Caso));
        },
        TipoToken::Padrao => {
            assert("padrao"@.len() != "var"@.len());
            assert("padrao"@ != "var"@);
            assert("padrao"@.len() != "constante"@.len());
            assert("padrao"@ != "constante"@);
            assert("padrao"@[0] != "funcao"@[0]);
            assert("padrao"@ != "funcao"@);
            assert("padrao"@.len() != "retorne"@.len());
            assert("padrao"@ != "retorne"@);
            assert("padrao"@.len() != "se"@.len());
            assert("padrao"@ != "se"@);
            assert("padrao"@.len() != "senao"@.len());
            assert("padrao"@ != "senao"@);
            assert("padrao"@.len() != "senaose"@.len());
            assert("padrao"@ != "senaose"@);
            assert("padrao"@.len() != "escolha"@.len());
            assert("padrao"@ != "escolha"@);
            assert("padrao"@.len() != "caso"@.len());
            assert("padrao"@ != "caso"@);
            assert(palavra_chave_spec("padrao"@) == Some(TipoToken::Padrao));
        },
        TipoToken::Enquanto => {
            assert("enquanto"@.len() != "var"@.len());
            assert("enquanto"@ != "var"@);
            assert("enquanto"@.len() != "constante"@.len());
            assert("enquanto"@ != "constante"@);
            assert("enquanto"@.len() != "funcao"@.len());
            assert("enquanto"@ != "funcao"@);
            assert("enquanto"@.len() != "retorne"@.len());
            assert("enquanto"@ != "retorne"@);
            assert("enquanto"@.len() != "se"@.len());
            assert("enquanto"@ != "se"@);
            assert("enquanto"@.len() != "senao"@.len());
            assert("enquanto"@ != "senao"@);
            assert("enquanto"@.len() != "senaose"@.len());
            assert("enquanto"@ != "senaose"@);
            assert("enquanto"@.len() != "escolha"@.len());
            assert("enquanto"@ != "escolha"@);
            assert("enquanto"@.len() != "caso"@.len());
            assert("enquanto"@ != "caso"@);
            assert("enquanto"@.len() != "padrao"@.len());
            assert("enquanto"@ != "padrao"@);
            assert(palavra_chave_spec("enquanto"@) == Some(TipoToken::Enquanto));
        },
        TipoToken::Para => {
            assert("para"@.len() != "var"@.len());
            assert("para"@ != "var"@);
            assert("para"@.len() != "constante"@.len());
            assert("para"@ != "constante"@);
            assert("para"@.len() != "funcao"@.len());
            assert("para"@ != "funcao"@);
            assert("para"@.len() != "retorne"@.len());
            assert("para"@ != "retorne"@);
            assert("para"@.len() != "se"@.len());
            assert("para"@ != "se"@);
            assert("para"@.len() != "senao"@.len());
            assert("para"@ != "senao"@);
            assert("para"@.len() != "senaose"@.len());
            assert("para"@ != "senaose"@);
            assert("para"@.len() != "escolha"@.len());
            assert("para"@ != "escolha"@);
            assert("para"@[0] != "caso"@[0]);
            assert("para"@ != "caso"@);
            assert("para"@.len() != "padrao"@.len());
            assert("para"@ != "padrao"@);
            assert("para"@.len() != "enquanto"@.len());
            assert("para"@ != "enquanto"@);
            assert(palavra_chave_spec("para"@) == Some(TipoToken::Para));
        },
        TipoToken::Cada => {
            assert("cada"@.len() != "var"@.len());
            assert("cada"@ != "var"@);
            assert("cada"@.len() != "constante"@.len());
            assert("cada"@ != "constante"@);
            assert("cada"@.len() != "funcao"@.len());
            assert("cada"@ != "funcao"@);
            assert("cada"@.len() != "retorne"@.len());
            assert("cada"@ != "retorne"@);
            assert("cada"@.len() != "se"@.len());
            assert("cada"@ != "se"@);
            assert("cada"@.len() != "senao"@.len());
            assert("cada"@ != "senao"@);
            assert("cada"@.len() != "senaose"@.len());
            assert("cada"@ != "senaose"@);
            assert("cada"@.len() != "escolha"@.len());
            assert("cada"@ != "escolha"@);
            assert("cada"@[2] != "caso"@[2]);
            assert("cada"@ != "caso"@);
            assert("cada"@.len() != "padrao"@.len());
            assert("cada"@ != "padrao"@);
            assert("cada"@.len() != "enquanto"@.len());
            assert("cada"@ != "enquanto"@);
            assert("cada"@[0] != "para"@[0]);
            assert("cada"@ != "para"@);
            assert(palavra_chave_spec("cada"@) == Some(TipoToken::Cada));
        },
        TipoToken::Em => {
            assert("em"@.len() != "var"@.len());
            assert("em"@ != "var"@);
            assert("em"@.len() != "constante"@.len());
            assert("em"@ != "constante"@);
            assert("em"@.len() != "funcao"@.len());
            assert("em"@ != "funcao"@);
            assert("em"@.len() != "retorne"@.len());
            assert("em"@ != "retorne"@);
            assert("em"@[0] != "se"@[0]);
            assert("em"@ != "se"@);
            assert("em"@.len() != "senao"@.len());
            assert("em"@ != "senao"@);
            assert("em"@.len() != "senaose"@.len());
            assert("em"@ != "senaose"@);
            assert("em"@.len() != "escolha"@.len());
            assert("em"@ != "escolha"@);
            assert("em"@.len() != "caso"@.len());
            assert("em"@ != "caso"@);
            assert("em"@.len() != "padrao"@.len());
            assert("em"@ != "padrao"@);
            assert("em"@.len() != "enquanto"@.len());
            assert("em"@ != "enquanto"@);
            assert("em"@.len() != "para"@.len());
            assert("em"@ != "para"@);
            assert("em"@.len() != "cada"@.len());
            assert("em"@ != "cada"@);
            assert(palavra_chave_spec("em"@) == Some(TipoToken::Em));
        },
        TipoToken::De => {
            assert("de"@.len() != "var"@.len());
            assert("de"@ != "var"@);
            assert("de"@.len() != "constante"@.len());
            assert("de"@ != "constante"@);
            assert("de"@.len() != "funcao"@.len());
            assert("de"@ != "funcao"@);
            assert("de"@.len() != "retorne"@.len());
            assert("de"@ != "retorne"@);
            assert("de"@[0] != "se"@[0]);
            assert("de"@ != "se"@);
            assert("de"@.len() != "senao"@.len());
            assert("de"@ != "senao"@);
            assert("de"@.len() != "senaose"@.len());
            assert("de"@ != "senaose"@);
            assert("de"@.len() != "escolha"@.len());
            assert("de"@ != "escolha"@);
            assert("de"@.len() != "caso"@.len());
            assert("de"@ != "caso"@);
            assert("de"@.len() != "padrao"@.len());
            assert("de"@ != "padrao"@);
            assert("de"@.len() != "enquanto"@.len());
            assert("de"@ != "enquanto"@);
            assert("de"@.len() != "para"@.len());
            assert("de"@ != "para"@);
            assert("de"@.len() != "cada"@.len());
            assert("de"@ != "cada"@);
            assert("de"@[0] != "em"@[0]);
            assert("de"@ != "em"@);
            assert(palavra_chave_spec("de"@) == Some(TipoToken::De));
        },
        TipoToken::Ate => {
            assert("ate"@[0] != "var"@[0]);
            assert("ate"@ != "var"@);
            assert("ate"@.len() != "constante"@.len());
            assert("ate"@ != "constante"@);
            assert("ate"@.len() != "funcao"@.len());
            assert("ate"@ != "funcao"@);
            assert("ate"@.len() != "retorne"@.len());
            assert("ate"@ != "retorne"@);
            assert("ate"@.len() != "se"@.len());
            assert("ate"@ != "se"@);
            assert("ate"@.len() != "senao"@.len());
            assert("ate"@ != "senao"@);
            assert("ate"@.len() != "senaose"@.len());
            assert("ate"@ != "senaose"@);
            assert("ate"@.len() != "escolha"@.len());
            assert("ate"@ != "escolha"@);
            assert("ate"@.len() != "caso"@.len());
            assert("ate"@ != "caso"@);
            assert("ate"@.len() != "padrao"@.len());
            assert("ate"@ != "padrao"@);
            assert("ate"@.len() != "enquanto"@.len());
            assert("ate"@ != "enquanto"@);
            assert("ate"@.len() != "para"@.len());
            assert("ate"@ != "para"@);
            assert("ate"@.len() != "cada"@.len());
            assert("ate"@ != "cada"@);
            assert("ate"@.len() != "em"@.len());
            assert("ate"@ != "em"@);
            assert("ate"@.len() != "de"@.len());
            assert("ate"@ != "de"@);
            assert(palavra_chave_spec("ate"@) == Some(TipoToken::Ate));
        },
        TipoToken::Passo => {
            assert("passo"@.len() != "var"@.len());
            assert("passo"@ != "var"@);
            assert("passo"@.len() != "constante"@.len());
            assert("passo"@ != "constante"@);
            assert("passo"@.len() != "funcao"@.len());
            assert("passo"@ != "funcao"@);
            assert("passo"@.len() != "retorne"@.len());
            assert("passo"@ != "retorne"@);
            assert("passo"@.len() != "se"@.len());
            assert("passo"@ != "se"@);
            assert("passo"@[0] != "senao"@[0]);
            assert("passo"@ != "senao"@);
            assert("passo"@.len() != "senaose"@.len());
            assert("passo"@ != "senaose"@);
            assert("passo"@.len() != "escolha"@.len());
            assert("passo"@ != "escolha"@);
            assert("passo"@.len() != "caso"@.len());
            assert("passo"@ != "caso"@);
            assert("passo"@.len() != "padrao"@.len());
            assert("passo"@ != "padrao"@);
            assert("passo"@.len() != "enquanto"@.len());
            assert("passo"@ != "enquanto"@);
            assert("passo"@.len() != "para"@.len());
            assert("passo"@ != "para"@);
            assert("passo"@.len() != "cada"@.len());
            assert("passo"@ != "cada"@);
            assert("passo"@.len() != "em"@.len());
            assert("passo"@ != "em"@);
            assert("passo"@.len() != "de"@.len());
            assert("passo"@ != "de"@);
            assert("passo"@.len() != "ate"@.len());
            assert("passo"@ != "ate"@);
            assert(palavra_chave_spec("passo"@) == Some(TipoToken::Passo));
        },
        TipoToken::Pare => {
            assert("pare"@.len() != "var"@.len());
            assert("pare"@ != "var"@);
            assert("pare"@.len() != "constante"@.len());
            assert("pare"@ != "constante"@);
            assert("pare"@.len() != "funcao"@.len());
            assert("pare"@ != "funcao"@);
            assert("pare"@.len() != "retorne"@.len());
            assert("pare"@ != "retorne"@);
            assert("pare"@.len() != "se"@.len());
            assert("pare"@ != "se"@);
            assert("pare"@.len() != "senao"@.len());
            assert("pare"@ != "senao"@);
            assert("pare"@.len() != "senaose"@.len());
            assert("pare"@ != "senaose"@);
            assert("pare"@.len() != "escolha"@.len());
            assert("pare"@ != "escolha"@);
            assert("pare"@[0] != "caso"@[0]);
            assert("pare"@ != "caso"@);
            assert("pare"@.len() != "padrao"@.len());
            assert("pare"@ != "padrao"@);
            assert("pare"@.len() != "enquanto"@.len());
            assert("pare"@ != "enquanto"@);
            assert("pare"@[3] != "para"@[3]);
            assert("pare"@ != "para"@);
            assert("pare"@[0] != "cada"@[0]);
            assert("pare"@ != "cada"@);
            assert("pare"@.len() != "em"@.len());
            assert("pare"@ != "em"@);
            assert("pare"@.len() != "de"@.len());
            assert("pare"@ != "de"@);
            assert("pare"@.len() != "ate"@.len());
            assert("pare"@ != "ate"@);
            assert("pare"@.len() != "passo"@.len());
            assert("pare"@ != "passo"@);
            assert(palavra_chave_spec("pare"@) == Some(TipoToken::Pare));
        },
        TipoToken::Continue => {
            assert("continue"@.len() != "var"@.len());
            assert("continue"@ != "var"@);
            assert("continue"@.len() != "constante"@.len());
            assert("continue"@ != "constante"@);
            assert("continue"@.len() != "funcao"@.len());
            assert("continue"@ != "funcao"@);
            assert("continue"@.len() != "retorne"@.len());
            assert("continue"@ != "retorne"@);
            assert("continue"@.len() != "se"@.len());
            assert("continue"@ != "se"@);
            assert("continue"@.len() != "senao"@.len());
            assert("continue"@ != "senao"@);
            assert("continue"@.len() != "senaose"@.len());
            assert("continue"@ != "senaose"@);
            assert("continue"@.len() != "escolha"@.len());
            assert("continue"@ != "escolha"@);
            assert("continue"@.len() != "caso"@.len());
            assert("continue"@ != "caso"@);
            assert("continue"@.len() != "padrao"@.len());
            assert("continue"@ != "padrao"@);
            assert("continue"@[0] != "enquanto"@[0]);
            assert("continue"@ != "enquanto"@);
            assert("continue"@.len() != "para"@.len());
            assert("continue"@ != "para"@);
            assert("continue"@.len() != "cada"@.len());
            assert("continue"@ != "cada"@);
            assert("continue"@.len() != "em"@.len());
            assert("continue"@ != "em"@);
            assert("continue"@.len() != "de"@.len());
            assert("continue"@ != "de"@);
            assert("continue"@.len() != "ate"@.len());
            assert("continue"@ != "ate"@);
            assert("continue"@.len() != "passo"@.len());
            assert("continue"@ != "passo"@);
            assert("continue"@.len() != "pare"@.len());
            assert("continue"@ != "pare"@);
            assert(palavra_chave_spec("continue"@) == Some(TipoToken::Continue));
        },
        TipoToken::E => {
            assert("e"@.len() != "var"@.len());
            assert("e"@ != "var"@);
            assert("e"@.len() != "constante"@.len());
            assert("e"@ != "constante"@);
            assert("e"@.len() != "funcao"@.len());
            assert("e"@ != "funcao"@);
            assert("e"@.len() != "retorne"@.len());
            assert("e"@ != "retorne"@);
            assert("e"@.len() != "se"@.len());
            assert("e"@ != "se"@);
            assert("e"@.len() != "senao"@.len());
            assert("e"@ != "senao"@);
            assert("e"@.len() != "senaose"@.len());
            assert("e"@ != "senaose"@);
            assert("e"@.len() != "escolha"@.len());
            assert("e"@ != "escolha"@);
            assert("e"@.len() != "caso"@.len());
            assert("e"@ != "caso"@);
            assert("e"@.len() != "padrao"@.len());
            assert("e"@ != "padrao"@);
            assert("e"@.len() != "enquanto"@.len());
            assert("e"@ != "enquanto"@);
            assert("e"@.len() != "para"@.len());
            assert("e"@ != "para"@);
            assert("e"@.len() != "cada"@.len());
            assert("e"@ != "cada"@);
            assert("e"@.len() != "em"@.len());
            assert("e"@ != "em"@);
            assert("e"@.len() != "de"@.len());
            assert("e"@ != "de"@);
            assert("e"@.len() != "ate"@.len());
            assert("e"@ != "ate"@);
            assert("e"@.len() != "passo"@.len());
            assert("e"@ != "passo"@);
            assert("e"@.len() != "pare"@.len());
            assert("e"@ != "pare"@);
            assert("e"@.len() != "continue"@.len());
            assert("e"@ != "continue"@);
            assert(palavra_chave_spec("e"@) == Some(TipoToken::E));
        },
        TipoToken::Ou => {
            assert("ou"@.len() != "var"@.len());
            assert("ou"@ != "var"@);
            assert("ou"@.len() != "constante"@.len());
            assert("ou"@ != "constante"@);
            assert("ou"@.len() != "funcao"@.len());
            assert("ou"@ != "funcao"@);
            assert("ou"@.len() != "retorne"@.len());
            assert("ou"@ != "retorne"@);
            assert("ou"@[0] != "se"@[0]);
            assert("ou"@ != "se"@);
            assert("ou"@.len() != "senao"@.len());
            assert("ou"@ != "senao"@);
            assert("ou"@.len() != "senaose"@.len());
            assert("ou"@ != "senaose"@);
            assert("ou"@.len() != "escolha"@.len());
            assert("ou"@ != "escolha"@);
            assert("ou"@.len() != "caso"@.len());
            assert("ou"@ != "caso"@);
            assert("ou"@.len() != "padrao"@.len());
            assert("ou"@ != "padrao"@);
            assert("ou"@.len() != "enquanto"@.len());
            assert("ou"@ != "enquanto"@);
            assert("ou"@.len() != "para"@.len());
            assert("ou"@ != "para"@);
            assert("ou"@.len() != "cada"@.len());
            assert("ou"@ != "cada"@);
            assert("ou"@[0] != "em"@[0]);
            assert("ou"@ != "em"@);
            assert("ou"@[0] != "de"@[0]);
            assert("ou"@ != "de"@);
            assert("ou"@.len() != "ate"@.len());
            assert("ou"@ != "ate"@);
            assert("ou"@.len() != "passo"@.len());
            assert("ou"@ != "passo"@);
            assert("ou"@.len() != "pare"@.len());
            assert("ou"@ != "pare"@);
            assert("ou"@.len() != "continue"@.len());
            assert("ou"@ != "continue"@);
            assert("ou"@.len() != "e"@.len());
            assert("ou"@ != "e"@);
            assert(palavra_chave_spec("ou"@) == Some(TipoToken::Ou));
        },
        TipoToken::Nao => {
            assert("nao"@[0] != "var"@[0]);
            assert("nao"@ != "var"@);
            assert("nao"@.len() != "constante"@.len());
            assert("nao"@ != "constante"@);
            assert("nao"@.len() != "funcao"@.len());
            assert("nao"@ != "funcao"@);
            assert("nao"@.len() != "retorne"@.len());
            assert("nao"@ != "retorne"@);
            assert("nao"@.len() != "se"@.len());
            assert("nao"@ != "se"@);
            assert("nao"@.len() != "senao"@.len());
            assert("nao"@ != "senao"@);
            assert("nao"@.len() != "senaose"@.len());
            assert("nao"@ != "senaose"@);
            assert("nao"@.len() != "escolha"@.len());
            assert("nao"@ != "escolha"@);
            assert("nao"@.len() != "caso"@.len());
            assert("nao"@ != "caso"@);
            assert("nao"@.len() != "padrao"@.len());
            assert("nao"@ != "padrao"@);
            assert("nao"@.len() != "enquanto"@.len());
            assert("nao"@ != "enquanto"@);
            assert("nao"@.len() != "para"@.len());
            assert("nao"@ != "para"@);
            assert("nao"@.len() != "cada"@.len());
            assert("nao"@ != "cada"@);
            assert("nao"@.len() != "em"@.len());
            assert("nao"@ != "em"@);
            assert("nao"@.len() != "de"@.len());
            assert("nao"@ != "de"@);
            assert("nao"@[0] != "ate"@[0]);
            assert("nao"@ != "ate"@);
            assert("nao"@.len() != "passo"@.len());
            assert("nao"@ != "passo"@);
            assert("nao"@.len() != "pare"@.len());
            assert("nao"@ != "pare"@);
            assert("nao"@.len() != "continue"@.len());
            assert("nao"@ != "continue"@);
            assert("nao"@.len() != "e"@.len());
            assert("nao"@ != "e"@);
            assert("nao"@.len() != "ou"@.len());
            assert("nao"@ != "ou"@);
            assert(palavra_chave_spec("nao"@) == Some(TipoToken::Nao));
        },
        TipoToken::Verdadeiro => {
            assert("verdadeiro"@.len() != "var"@.len());
            assert("verdadeiro"@ != "var"@);
            assert("verdadeiro"@.len() != "constante"@.len());
            assert("verdadeiro"@ != "constante"@);
            assert("verdadeiro"@.len() != "funcao"@.len());
            assert("verdadeiro"@ != "funcao"@);
            assert("verdadeiro"@.len() != "retorne"@.len());
            assert("verdadeiro"@ != "retorne"@);
            assert("verdadeiro"@.len() != "se"@.len());
            assert("verdadeiro"@ != "se"@);
            assert("verdadeiro"@.len() != "senao"@.len());
            assert("verdadeiro"@ != "senao"@);
            assert("verdadeiro"@.len() != "senaose"@.len());
            assert("verdadeiro"@ != "senaose"@);
            assert("verdadeiro"@.len() != "escolha"@.len());
            assert("verdadeiro"@ != "escolha"@);
            assert("verdadeiro"@.len() != "caso"@.len());
            assert("verdadeiro"@ != "caso"@);
            assert("verdadeiro"@.len() != "padrao"@.len());
            assert("verdadeiro"@ != "padrao"@);
            assert("verdadeiro"@.len() != "enquanto"@.len());
            assert("verdadeiro"@ != "enquanto"@);
            assert("verdadeiro"@.len() != "para"@.len());
            assert("verdadeiro"@ != "para"@);
            assert("verdadeiro"@.len() != "cada"@.len());
            assert("verdadeiro"@ != "cada"@);
            assert("verdadeiro"@.len() != "em"@.len());
            assert("verdadeiro"@ != "em"@);
            assert("verdadeiro"@.len() != "de"@.len());
            assert("verdadeiro"@ != "de"@);
            assert("verdadeiro"@.len() != "ate"@.len());
            assert("verdadeiro"@ != "ate"@);
            assert("verdadeiro"@.len() != "passo"@.len());
            assert("verdadeiro"@ != "passo"@);
            assert("verdadeiro"@.len() != "pare"@.len());
            assert("verdadeiro"@ != "pare"@);
            assert("verdadeiro"@.len() != "continue"@.len());
            assert("verdadeiro"@ != "continue"@);
            assert("verdadeiro"@.len() != "e"@.len());
            assert("verdadeiro"@ != "e"@);
            assert("verdadeiro"@.len() != "ou"@.len());
            assert("verdadeiro"@ != "ou"@);
            assert("verdadeiro"@.len() != "nao"@.len());
            assert("verdadeiro"@ != "nao"@);
            assert(palavra_chave_spec("verdadeiro"@) == Some(TipoToken::Verdadeiro));
        },
        TipoToken::Falso => {
            assert("falso"@.len() != "var"@.len());
            assert("falso"@ != "var"@);
            assert("falso"@.len() != "constante"@.len());
            assert("falso"@ != "constante"@);
            assert("falso"@.len() != "funcao"@.len());
            assert("falso"@ != "funcao"@);
            assert("falso"@.len() != "retorne"@.len());
            assert("falso"@ != "retorne"@);
            assert("falso"@.len() != "se"@.len());
            assert("falso"@ != "se"@);
            assert("falso"@[0] != "senao"@[0]);
            assert("falso"@ != "senao"@);
            assert("falso"@.len() != "senaose"@.len());
            assert("falso"@ != "senaose"@);
            assert("falso"@.len() != "escolha"@.len());
            assert("falso"@ != "escolha"@);
            assert("falso"@.len() != "caso"@.len());
            assert("falso"@ != "caso"@);
            assert("falso"@.len() != "padrao"@.len());
            assert("falso"@ != "padrao"@);
            assert("falso"@.len() != "enquanto"@.len());
            assert("falso"@ != "enquanto"@);
            assert("falso"@.len() != "para"@.len());
            assert("falso"@ != "para"@);
            assert("falso"@.len() != "cada"@.len());
            assert("falso"@ != "cada"@);
            assert("falso"@.len() != "em"@.len());
            assert("falso"@ != "em"@);
            assert("falso"@.len() != "de"@.len());
            assert("falso"@ != "de"@);
            assert("falso"@.len() != "ate"@.len());
            assert("falso"@ != "ate"@);
            assert("falso"@[0] != "passo"@[0]);
            assert("falso"@ != "passo"@);
            assert("falso"@.len() != "pare"@.len());
            assert("falso"@ != "pare"@);
            assert("falso"@.len() != "continue"@.len());
            assert("falso"@ != "continue"@);
            assert("falso"@.len() != "e"@.len());
            assert("falso"@ != "e"@);
            assert("falso"@.len() != "ou"@.len());
            assert("falso"@ != "ou"@);
            assert("falso"@.len() != "nao"@.len());
            assert("falso"@ != "nao"@);
            assert("falso"@.len() != "verdadeiro"@.len());
            assert("falso"@ != "verdadeiro"@);
            assert(palavra_chave_spec("falso"@) == Some(TipoToken::Falso));
        },
        TipoToken::Nulo => {
            assert("nulo"@.len() != "var"@.len());
            assert("nulo"@ != "var"@);
            assert("nulo"@.len() != "constante"@.len());
            assert("nulo"@ != "constante"@);
            assert("nulo"@.len() != "funcao"@.len());
            assert("nulo"@ != "funcao"@);
            assert("nulo"@.len() != "retorne"@.len());
            assert("nulo"@ != "retorne"@);
            assert("nulo"@.len() != "se"@.len());
            assert("nulo"@ != "se"@);
            assert("nulo"@.len() != "senao"@.len());
            assert("nulo"@ != "senao"@);
            assert("nulo"@.len() != "senaose"@.len());
            assert("nulo"@ != "senaose"@);
            assert("nulo"@.len() != "escolha"@.len());
            assert("nulo"@ != "escolha"@);
            assert("nulo"@[0] != "caso"@[0]);
            assert("nulo"@ != "caso"@);
            assert("nulo"@.len() != "padrao"@.len());
            assert("nulo"@ != "padrao"@);
            assert("nulo"@.len() != "enquanto"@.len());
            assert("nulo"@ != "enquanto"@);
            assert("nulo"@[0] != "para"@[0]);
            assert("nulo"@ != "para"@);
            assert("nulo"@[0] != "cada"@[0]);
            assert("nulo"@ != "cada"@);
            assert("nulo"@.len() != "em"@.len());
            assert("nulo"@ != "em"@);
            assert("nulo"@.len() != "de"@.len());
            assert("nulo"@ != "de"@);
            assert("nulo"@.len() != "ate"@.len());
            assert("nulo"@ != "ate"@);
            assert("nulo"@.len() != "passo"@.len());
            assert("nulo"@ != "passo"@);
            assert("nulo"@[0] != "pare"@[0]);
            assert("nulo"@ != "pare"@);
            assert("nulo"@.len() != "continue"@.len());
            assert("nulo"@ != "continue"@);
            assert("nulo"@.len() != "e"@.len());
            assert("nulo"@ != "e"@);
            assert("nulo"@.len() != "ou"@.len());
            assert("nulo"@ != "ou"@);
            assert("nulo"@.len() != "nao"@.len());
            assert("nulo"@ != "nao"@);
            assert("nulo"@.len() != "verdadeiro"@.len());
            assert("nulo"@ != "verdadeiro"@);
            assert("nulo"@.len() != "falso"@.len());
            assert("nulo"@ != "falso"@);
            assert(palavra_chave_spec("nulo"@) == Some(TipoToken::Nulo));
        },
        TipoToken::Classe => {
            assert("classe"@.len() != "var"@.len());
            assert("classe"@ != "var"@);
            assert("classe"@.len() != "constante"@.len());
            assert("classe"@ != "constante"@);
            assert("classe"@[0] != "funcao"@[0]);
            assert("classe"@ != "funcao"@);
            assert("classe"@.len() != "retorne"@.len());
            assert("classe"@ != "retorne"@);
            assert("classe"@.len() != "se"@.len());
            assert("classe"@ != "se"@);
            assert("classe"@.len() != "senao"@.len());
            assert("classe"@ != "senao"@);
            assert("classe"@.len() != "senaose"@.len());
            assert("classe"@ != "senaose"@);
            assert("classe"@.len() != "escolha"@.len());
            assert("classe"@ != "escolha"@);
            assert("classe"@.len() != "caso"@.len());
            assert("classe"@ != "caso"@);
            assert("classe"@[0] != "padrao"@[0]);
            assert("classe"@ != "padrao"@);
            assert("classe"@.len() != "enquanto"@.len());
            assert("classe"@ != "enquanto"@);
            assert("classe"@.len() != "para"@.len());
            assert("classe"@ != "para"@);
            assert("classe"@.len() != "cada"@.len());
            assert("classe"@ != "cada"@);
            assert("classe"@.len() != "em"@.len());
            assert("classe"@ != "em"@);
            assert("classe"@.len() != "de"@.len());
            assert("classe"@ != "de"@);
            assert("classe"@.len() != "ate"@.len());
            assert("classe"@ != "ate"@);
            assert("classe"@.len() != "passo"@.len());
            assert("classe"@ != "passo"@);
            assert("classe"@.len() != "pare"@.len());
            assert("classe"@ != "pare"@);
            assert("classe"@.len() != "continue"@.len());
            assert("classe"@ != "continue"@);
            assert("classe"@.len() != "e"@.len());
            assert("classe"@ != "e"@);
            assert("classe"@.len() != "ou"@.len());
            assert("classe"@ != "ou"@);
            assert("classe"@.len() != "nao"@.len());
            assert("classe"@ != "nao"@);
            assert("classe"@.len() != "verdadeiro"@.len());
            assert("classe"@ != "verdadeiro"@);
            assert("classe"@.len() != "falso"@.len());
            assert("classe"@ != "falso"@);
            assert("classe"@.len() != "nulo"@.len());
            assert("classe"@ != "nulo"@);
            assert(palavra_chave_spec("classe"@) == Some(TipoToken::Classe));
        },
        TipoToken::Herda => {
            assert("herda"@.len() != "var"@.len());
            assert("herda"@ != "var"@);
            assert("herda"@.len() != "constante"@.len());
            assert("herda"@ != "constante"@);
            assert("herda"@.len() != "funcao"@.len());
            assert("herda"@ != "funcao"@);
            assert("herda"@.len() != "retorne"@.len());
            assert("herda"@ != "retorne"@);
            assert("herda"@.len() != "se"@.len());
            assert("herda"@ != "se"@);
            assert("herda"@[0] != "senao"@[0]);
            assert("herda"@ != "senao"@);
            assert("herda"@.len() != "senaose"@.len());
            assert("herda"@ != "senaose"@);
            assert("herda"@.len() != "escolha"@.len());
            assert("herda"@ != "escolha"@);
            assert("herda"@.len() != "caso"@.len());
            assert("herda"@ != "caso"@);
            assert("herda"@.len() != "padrao"@.len());
            assert("herda"@ != "padrao"@);
            assert("herda"@.len() != "enquanto"@.len());
            assert("herda"@ != "enquanto"@);
            assert("herda"@.len() != "para"@.len());
            assert("herda"@ != "para"@);
            assert("herda"@.len() != "cada"@.len());
            assert("herda"@ != "cada"@);
            assert("herda"@.len() != "em"@.len());
            assert("herda"@ != "em"@);
            assert("herda"@.len() != "de"@.len());
            assert("herda"@ != "de"@);
            assert("herda"@.len() != "ate"@.len());
            assert("herda"@ != "ate"@);
            assert("herda"@[0] != "passo"@[0]);
            assert("herda"@ != "passo"@);
            assert("herda"@.len() != "pare"@.len());
            assert("herda"@ != "pare"@);
            assert("herda"@.len() != "continue"@.len());
            assert("herda"@ != "continue"@);
            assert("herda"@.len() != "e"@.len());
            assert("herda"@ != "e"@);
            assert("herda"@.len() != "ou"@.len());
            assert("herda"@ != "ou"@);
            assert("herda"@.len() != "nao"@.len());
            assert("herda"@ != "nao"@);
            assert("herda"@.len() != "verdadeiro"@.len());
            assert("herda"@ != "verdadeiro"@);
            assert("herda"@[0] != "falso"@[0]);
            assert("herda"@ != "falso"@);
            assert("herda"@.len() != "nulo"@.len());
            assert("herda"@ != "nulo"@);
            assert("herda"@.len() != "classe"@.len());
            assert("herda"@ != "classe"@);
            assert(palavra_chave_spec("herda"@) == Some(TipoToken::Herda));
        },
        TipoToken::Metodo => {
            assert("metodo"@.len() != "var"@.len());
            assert("metodo"@ != "var"@);
            assert("metodo"@.len() != "constante"@.len());
            assert("metodo"@ != "constante"@);
            assert("metodo"@[0] != "funcao"@[0]);
            assert("metodo"@ != "funcao"@);
            assert("metodo"@.len() != "retorne"@.len());
            assert("metodo"@ != "retorne"@);
            assert("metodo"@.len() != "se"@.len());
            assert("metodo"@ != "se"@);
            assert("metodo"@.len() != "senao"@.len());
            assert("metodo"@ != "senao"@);
            assert("metodo"@.len() != "senaose"@.len());
            assert("metodo"@ != "senaose"@);
            assert("metodo"@.len() != "escolha"@.len());
            assert("metodo"@ != "escolha"@);
            assert("metodo"@.len() != "caso"@.len());
            assert("metodo"@ != "caso"@);
            assert("metodo"@[0] != "padrao"@[0]);
            assert("metodo"@ != "padrao"@);
            assert("metodo"@.len() != "enquanto"@.len());
            assert("metodo"@ != "enquanto"@);
            assert("metodo"@.len() != "para"@.len());
            assert("metodo"@ != "para"@);
            assert("metodo"@.len() != "cada"@.len());
            assert("metodo"@ != "cada"@);
            assert("metodo"@.len() != "em"@.len());
            assert("metodo"@ != "em"@);
            assert("metodo"@.len() != "de"@.len());
            assert("metodo"@ != "de"@);
            assert("metodo"@.len() != "ate"@.len());
            assert("metodo"@ != "ate"@);
            assert("metodo"@.len() != "passo"@.len());
            assert("metodo"@ != "passo"@);
            assert("metodo"@.len() != "pare"@.len());
            assert("metodo"@ != "pare"@);
            assert("metodo"@.len() != "continue"@.len());
            assert("metodo"@ != "continue"@);
            assert("metodo"@.len() != "e"@.len());
            assert("metodo"@ != "e"@);
            assert("metodo"@.len() != "ou"@.len());
            assert("metodo"@ != "ou"@);
            assert("metodo"@.len() != "nao"@.len());
            assert("metodo"@ != "nao"@);
            assert("metodo"@.len() != "verdadeiro"@.len());
            assert("metodo"@ != "verdadeiro"@);
            assert("metodo"@.len() != "falso"@.len());
            assert("metodo"@ != "falso"@);
            assert("metodo"@.len() != "nulo"@.len());
            assert("metodo"@ != "nulo"@);
            assert("metodo"@[0] != "classe"@[0]);
            assert("metodo"@ != "classe"@);
            assert("metodo"@.len() != "herda"@.len());
            assert("metodo"@ != "herda"@);
            assert(palavra_chave_spec("metodo"@) == Some(TipoToken::Metodo));
        },
        TipoToken::Construtor => {
            assert("construtor"@.len() != "var"@.len());
            assert("construtor"@ != "var"@);
            assert("construtor"@.len() != "constante"@.len());
            assert("construtor"@ != "constante"@);
            assert("construtor"@.len() != "funcao"@.len());
            assert("construtor"@ != "funcao"@);
            assert("construtor"@.len() != "retorne"@.len());
            assert("construtor"@ != "retorne"@);
            assert("construtor"@.len() != "se"@.len());
            assert("construtor"@ != "se"@);
            assert("construtor"@.len() != "senao"@.len());
            assert("construtor"@ != "senao"@);
            assert("construtor"@.len() != "senaose"@.len());
            assert("construtor"@ != "senaose"@);
            assert("construtor"@.len() != "escolha"@.len());
            assert("construtor"@ != "escolha"@);
            assert("construtor"@.len() != "caso"@.len());
            assert("construtor"@ != "caso"@);
            assert("construtor"@.len() != "padrao"@.len());
            assert("construtor"@ != "padrao"@);
            assert("construtor"@.len() != "enquanto"@.len());
            assert("construtor"@ != "enquanto"@);
            assert("construtor"@.len() != "para"@.len());
            assert("construtor"@ != "para"@);
            assert("construtor"@.len() != "cada"@.len());
            assert("construtor"@ != "cada"@);
            assert("construtor"@.len() != "em"@.len());
            assert("construtor"@ != "em"@);
            assert("construtor"@.len() != "de"@.len());
            assert("construtor"@ != "de"@);
            assert("construtor"@.len() != "ate"@.len());
            assert("construtor"@ != "ate"@);
            assert("construtor"@.len() != "passo"@.len());
            assert("construtor"@ != "passo"@);
            assert("construtor"@.len() != "pare"@.len());
            assert("construtor"@ != "pare"@);
            assert("construtor"@.len() != "continue"@.len());
            assert("construtor"@ != "continue"@);
            assert("construtor"@.len() != "e"@.len());
            assert("construtor"@ != "e"@);
            assert("construtor"@.len() != "ou"@.len());
            assert("construtor"@ != "ou"@);
            assert("construtor"@.len() != "nao"@.len());
            assert("construtor"@ != "nao"@);
            assert("construtor"@[0] != "verdadeiro"@[0]);
            assert("construtor"@ != "verdadeiro"@);
            assert("construtor"@.len() != "falso"@.len());
            assert("construtor"@ != "falso"@);
            assert("construtor"@.len() != "nulo"@.len());
            assert("construtor"@ != "nulo"@);
            assert("construtor"@.len() != "classe"@.len());
            assert("construtor"@ != "classe"@);
            assert("construtor"@.len() != "herda"@.len());
            assert("construtor"@ != "herda"@);
            assert("construtor"@.len() != "metodo"@.len());
            assert("construtor"@ != "metodo"@);
            assert(palavra_chave_spec("construtor"@) == Some(TipoToken::Construtor));
        },
        TipoToken::Novo => {
            assert("novo"@.len() != "var"@.len());
            assert("novo"@ != "var"@);
            assert("novo"@.len() != "constante"@.len());
            assert("novo"@ != "constante"@);
            assert("novo"@.len() != "funcao"@.len());
            assert("novo"@ != "funcao"@);
            assert("novo"@.len() != "retorne"@.len());
            assert("novo"@ != "retorne"@);
            assert("novo"@.len() != "se"@.len());
            assert("novo"@ != "se"@);
            assert("novo"@.len() != "senao"@.len());
            assert("novo"@ != "senao"@);
            assert("novo"@.len() != "senaose"@.len());
            assert("novo"@ != "senaose"@);
            assert("novo"@.len() != "escolha"@.len());
            assert("novo"@ != "escolha"@);
            assert("novo"@[0] != "caso"@[0]);
            assert("novo"@ != "caso"@);
            assert("novo"@.len() != "padrao"@.len());
            assert("novo"@ != "padrao"@);
            assert("novo"@.len() != "enquanto"@.len());
            assert("novo"@ != "enquanto"@);
            assert("novo"@[0] != "para"@[0]);
            assert("novo"@ != "para"@);
            assert("novo"@[0] != "cada"@[0]);
            assert("novo"@ != "cada"@);
            assert("novo"@.len() != "em"@.len());
            assert("novo"@ != "em"@);
            assert("novo"@.len() != "de"@.len());
            assert("novo"@ != "de"@);
            assert("novo"@.len() != "ate"@.len());
            assert("novo"@ != "ate"@);
            assert("novo"@.len() != "passo"@.len());
            assert("novo"@ != "passo"@);
            assert("novo"@[0] != "pare"@[0]);
            assert("novo"@ != "pare"@);
            assert("novo"@.len() != "continue"@.len());
            assert("novo"@ != "continue"@);
            assert("novo"@.len() != "e"@.len());
            assert("novo"@ != "e"@);
            assert("novo"@.len() != "ou"@.len());
            assert("novo"@ != "ou"@);
            assert("novo"@.len() != "nao"@.len());
            assert("novo"@ != "nao"@);
            assert("novo"@.len() != "verdadeiro"@.len());
            assert("novo"@ != "verdadeiro"@);
            assert("novo"@.len() != "falso"@.len());
            assert("novo"@ != "falso"@);
            assert("novo"@[1] != "nulo"@[1]);
            assert("novo"@ != "nulo"@);
            assert("novo"@.len() != "classe"@.len());
            assert("novo"@ != "classe"@);
            assert("novo"@.len() != "herda"@.len());
            assert("novo"@ != "herda"@);
            assert("novo"@.len() != "metodo"@.len());
            assert("novo"@ != "metodo"@);
            assert("novo"@.len() != "construtor"@.len());
            assert("novo"@ != "construtor"@);
            assert(palavra_chave_spec("novo"@) == Some(TipoToken::Novo));
        },
        TipoToken::Isto => {
            assert("isto"@.len() != "var"@.len());
            assert("isto"@ != "var"@);
            assert("isto"@.len() != "constante"@.len());
            assert("isto"@ != "constante"@);
            assert("isto"@.len() != "funcao"@.len());
            assert("isto"@ != "funcao"@);
            assert("isto"@.len() != "retorne"@.len());
            assert("isto"@ != "retorne"@);
            assert("isto"@.len() != "se"@.len());
            assert("isto"@ != "se"@);
            assert("isto"@.len() != "senao"@.len());
            assert("isto"@ != "senao"@);
            assert("isto"@.len() != "senaose"@.len());
            assert("isto"@ != "senaose"@);
            assert("isto"@.len() != "escolha"@.len());
            assert("isto"@ != "escolha"@);
            assert("isto"@[0] != "caso"@[0]);
            assert("isto"@ != "caso"@);
            assert("isto"@.len() != "padrao"@.len());
            assert("isto"@ != "padrao"@);
            assert("isto"@.len() != "enquanto"@.len());
            assert("isto"@ != "enquanto"@);
            assert("isto"@[0] != "para"@[0]);
            assert("isto"@ != "para"@);
            assert("isto"@[0] != "cada"@[0]);
            assert("isto"@ != "cada"@);
            assert("isto"@.len() != "em"@.len());
            assert("isto"@ != "em"@);
            assert("isto"@.len() != "de"@.len());
            assert("isto"@ != "de"@);
            assert("isto"@.len() != "ate"@.len());
            assert("isto"@ != "ate"@);
            assert("isto"@.len() != "passo"@.len());
            assert("isto"@ != "passo"@);
            assert("isto"@[0] != "pare"@[0]);
            assert("isto"@ != "pare"@);
            assert("isto"@.len() != "continue"@.len());
            assert("isto"@ != "continue"@);
            assert("isto"@.len() != "e"@.len());
            assert("isto"@ != "e"@);
            assert("isto"@.len() != "ou"@.len());
            assert("isto"@ != "ou"@);
            assert("isto"@.len() != "nao"@.len());
            assert("isto"@ != "nao"@);
            assert("isto"@.len() != "verdadeiro"@.len());
            assert("isto"@ != "verdadeiro"@);
            assert("isto"@.len() != "falso"@.len());
            assert("isto"@ != "falso"@);
            assert("isto"@[0] != "nulo"@[0]);
            assert("isto"@ != "nulo"@);
            assert("isto"@.len() != "classe"@.len());
            assert("isto"@ != "classe"@);
            assert("isto"@.len() != "herda"@.len());
            assert("isto"@ != "herda"@);
            assert("isto"@.len() != "metodo"@.len());
            assert("isto"@ != "metodo"@);
            assert("isto"@.len() != "construtor"@.len());
            assert("isto"@ != "construtor"@);
            assert("isto"@[0] != "novo"@[0]);
            assert("isto"@ != "novo"@);
            assert(palavra_chave_spec("isto"@) == Some(TipoToken::Isto));
        },
        TipoToken::Base => {
            assert("base"@.len() != "var"@.len());
            assert("base"@ != "var"@);
            assert("base"@.len() != "constante"@.len());
            assert("base"@ != "constante"@);
            assert("base"@.len() != "funcao"@.len());
            assert("base"@ != "funcao"@);
            assert("base"@.len() != "retorne"@.len());
            assert("base"@ != "retorne"@);
            assert("base"@.len() != "se"@.len());
            assert("base"@ != "se"@);
            assert("base"@.len() != "senao"@.len());
            assert("base"@ != "senao"@);
            assert("base"@.len() != "senaose"@.len());
            assert("base"@ != "senaose"@);
            assert("base"@.len() != "escolha"@.len());
            assert("base"@ != "escolha"@);
            assert("base"@[0] != "caso"@[0]);
            assert("base"@ != "caso"@);
            assert("base"@.len() != "padrao"@.len());
            assert("base"@ != "padrao"@);
            assert("base"@.len() != "enquanto"@.len());
            assert("base"@ != "enquanto"@);
            assert("base"@[0] != "para"@[0]);
            assert("base"@ != "para"@);
            assert("base"@[0] != "cada"@[0]);
            assert("base"@ != "cada"@);
            assert("base"@.len() != "em"@.len());
            assert("base"@ != "em"@);
            assert("base"@.len() != "de"@.len());
            assert("base"@ != "de"@);
            assert("base"@.len() != "ate"@.len());
            assert("base"@ != "ate"@);
            assert("base"@.len() != "passo"@.len());
            assert("base"@ != "passo"@);
            assert("base"@[0] != "pare"@[0]);
            assert("base"@ != "pare"@);
            assert("base"@.len() != "continue"@.len());
            assert("base"@ != "continue"@);
            assert("base"@.len() != "e"@.len());
            assert("base"@ != "e"@);
            assert("base"@.len() != "ou"@.len());
            assert("base"@ != "ou"@);
            assert("base"@.len() != "nao"@.len());
            assert("base"@ != "nao"@);
            assert("base"@.len() != "verdadeiro"@.len());
            assert("base"@ != "verdadeiro"@);
            assert("base"@.len() != "falso"@.len());
            assert("base"@ != "falso"@);
            assert("base"@[0] != "nulo"@[0]);
            assert("base"@ != "nulo"@);
            assert("base"@.len() != "classe"@.len());
            assert("base"@ != "classe"@);
            assert("base"@.len() != "herda"@.len());
            assert("base"@ != "herda"@);
            assert("base"@.len() != "metodo"@.len());
            assert("base"@ != "metodo"@);
            assert("base"@.len() != "construtor"@.len());
            assert("base"@ != "construtor"@);
            assert("base"@[0] != "novo"@[0]);
            assert("base"@ != "novo"@);
            assert("base"@[0] != "isto"@[0]);
            assert("base"@ != "isto"@);
            assert(palavra_chave_spec("base"@) == Some(TipoToken::Base));
        },
        TipoToken::Estatico => {
            assert("estatico"@.len() != "var"@.len());
            assert("estatico"@ != "var"@);
            assert("estatico"@.len() != "constante"@.len());
            assert("estatico"@ != "constante"@);
            assert("estatico"@.len() != "funcao"@.len());
            assert("estatico"@ != "funcao"@);
            assert("estatico"@.len() != "retorne"@.len());
            assert("estatico"@ != "retorne"@);
            assert("estatico"@.len() != "se"@.len());
            assert("estatico"@ != "se"@);
            assert("estatico"@.len() != "senao"@.len());
            assert("estatico"@ != "senao"@);
            assert("estatico"@.len() != "senaose"@.len());
            assert("estatico"@ != "senaose"@);
            assert("estatico"@.len() != "escolha"@.len());
            assert("estatico"@ != "escolha"@);
            assert("estatico"@.len() != "caso"@.len());
            assert("estatico"@ != "caso"@);
            assert("estatico"@.len() != "padrao"@.len());
            assert("estatico"@ != "padrao"@);
            assert("estatico"@[1] != "enquanto"@[1]);
            assert("estatico"@ != "enquanto"@);
            assert("estatico"@.len() != "para"@.len());
            assert("estatico"@ != "para"@);
            assert("estatico"@.len() != "cada"@.len());
            assert("estatico"@ != "cada"@);
            assert("estatico"@.len() != "em"@.len());
            assert("estatico"@ != "em"@);
            assert("estatico"@.len() != "de"@.len());
            assert("estatico"@ != "de"@);
            assert("estatico"@.len() != "ate"@.len());
            assert("estatico"@ != "ate"@);
            assert("estatico"@.len() != "passo"@.len());
            assert("estatico"@ != "passo"@);
            assert("estatico"@.len() != "pare"@.len());
            assert("estatico"@ != "pare"@);
            assert("estatico"@[0] != "continue"@[0]);
            assert("estatico"@ != "continue"@);
            assert("estatico"@.len() != "e"@.len());
            assert("estatico"@ != "e"@);
            assert("estatico"@.len() != "ou"@.len());
            assert("estatico"@ != "ou"@);
            assert("estatico"@.len() != "nao"@.len());
            assert("estatico"@ != "nao"@);
            assert("estatico"@.len() != "verdadeiro"@.len());
            assert("estatico"@ != "verdadeiro"@);
            assert("estatico"@.len() != "falso"@.len());
            assert("estatico"@ != "falso"@);
            assert("estatico"@.len() != "nulo"@.len());
            assert("estatico"@ != "nulo"@);
            assert("estatico"@.len() != "classe"@.len());
            assert("estatico"@ != "classe"@);
            assert("estatico"@.len() != "herda"@.len());
            assert("estatico"@ != "herda"@);
            assert("estatico"@.len() != "metodo"@.len());
            assert("estatico"@ != "metodo"@);
            assert("estatico"@.len() != "construtor"@.len());
            assert("estatico"@ != "construtor"@);
            assert("estatico"@.len() != "novo"@.len());
            assert("estatico"@ != "novo"@);
            assert("estatico"@.len() != "isto"@.len());
            assert("estatico"@ != "isto"@);
            assert("estatico"@.len() != "base"@.len());
            assert("estatico"@ != "base"@);
            assert(palavra_chave_spec("estatico"@) == Some(TipoToken::Estatico));
        },
        TipoToken::Tente => {
            assert("tente"@.len() != "var"@.len());
            assert("tente"@ != "var"@);
            assert("tente"@.len() != "constante"@.len());
            assert("tente"@ != "constante"@);
            assert("tente"@.len() != "funcao"@.len());
            assert("tente"@ != "funcao"@);
            assert("tente"@.len() != "retorne"@.len());
            assert("tente"@ != "retorne"@);
            assert("tente"@.len() != "se"@.len());
            assert("tente"@ != "se"@);
            assert("tente"@[0] != "senao"@[0]);
            assert("tente"@ != "senao"@);
            assert("tente"@.len() != "senaose"@.len());
            assert("tente"@ != "senaose"@);
            assert("tente"@.len() != "escolha"@.len());
            assert("tente"@ != "escolha"@);
            assert("tente"@.len() != "caso"@.len());
            assert("tente"@ != "caso"@);
            assert("tente"@.len() != "padrao"@.len());
            assert("tente"@ != "padrao"@);
            assert("tente"@.len() != "enquanto"@.len());
            assert("tente"@ != "enquanto"@);
            assert("tente"@.len() != "para"@.len());
            assert("tente"@ != "para"@);
            assert("tente"@.len() != "cada"@.len());
            assert("tente"@ != "cada"@);
            assert("tente"@.len() != "em"@.len());
            assert("tente"@ != "em"@);
            assert("tente"@.len() != "de"@.len());
            assert("tente"@ != "de"@);
            assert("tente"@.len() != "ate"@.len());
            assert("tente"@ != "ate"@);
            assert("tente"@[0] != "passo"@[0]);
            assert("tente"@ != "passo"@);
            assert("tente"@.len() != "pare"@.len());
            assert("tente"@ != "pare"@);
            assert("tente"@.len() != "continue"@.len());
            assert("tente"@ != "continue"@);
            assert("tente"@.len() != "e"@.len());
            assert("tente"@ != "e"@);
            assert("tente"@.len() != "ou"@.len());
            assert("tente"@ != "ou"@);
            assert("tente"@.len() != "nao"@.len());
            assert("tente"@ != "nao"@);
            assert("tente"@.len() != "verdadeiro"@.len());
            assert("tente"@ != "verdadeiro"@);
            assert("tente"@[0] != "falso"@[0]);
            assert("tente"@ != "falso"@);
            assert("tente"@.len() != "nulo"@.len());
            assert("tente"@ != "nulo"@);
            assert("tente"@.len() != "classe"@.len());
            assert("tente"@ != "classe"@);
            assert("tente"@[0] != "herda"@[0]);
            assert("tente"@ != "herda"@);
            assert("tente"@.len() != "metodo"@.len());
            assert("tente"@ != "metodo"@);
            assert("tente"@.len() != "construtor"@.len());
            assert("tente"@ != "construtor"@);
            assert("tente"@.len() != "novo"@.len());
            assert("tente"@ != "novo"@);
            assert("tente"@.len() != "isto"@.len());
            assert("tente"@ != "isto"@);
            assert("tente"@.len() != "base"@.len());
            assert("tente"@ != "base"@);
            assert("tente"@.len() != "estatico"@.len());
            assert("tente"@ != "estatico"@);
            assert(palavra_chave_spec("tente"@) == Some(TipoToken::Tente));
        },
        TipoToken::Capture => {
            assert("capture"@.len() != "var"@.len());
            assert("capture"@ != "var"@);
            assert("capture"@.len() != "constante"@.len());
            assert("capture"@ != "constante"@);
            assert("capture"@.len() != "funcao"@.len());
            assert("capture"@ != "funcao"@);
            assert("capture"@[0] != "retorne"@[0]);
            assert("capture"@ != "retorne"@);
            assert("capture"@.len() != "se"@.len());
            assert("capture"@ != "se"@);
            assert("capture"@.len() != "senao"@.len());
            assert("capture"@ != "senao"@);
            assert("capture"@[0] != "senaose"@[0]);
            assert("capture"@ != "senaose"@);
            assert("capture"@[0] != "escolha"@[0]);
            assert("capture"@ != "escolha"@);
            assert("capture"@.len() != "caso"@.len());
            assert("capture"@ != "caso"@);
            assert("capture"@.len() != "padrao"@.len());
            assert("capture"@ != "padrao"@);
            assert("capture"@.len() != "enquanto"@.len());
            assert("capture"@ != "enquanto"@);
            assert("capture"@.len() != "para"@.len());
            assert("capture"@ != "para"@);
            assert("capture"@.len() != "cada"@.len());
            assert("capture"@ != "cada"@);
            assert("capture"@.len() != "em"@.len());
            assert("capture"@ != "em"@);
            assert("capture"@.len() != "de"@.len());
            assert("capture"@ != "de"@);
            assert("capture"@.len() != "ate"@.len());
            assert("capture"@ != "ate"@);
            assert("capture"@.len() != "passo"@.len());
            assert("capture"@ != "passo"@);
            assert("capture"@.len() != "pare"@.len());
            assert("capture"@ != "pare"@);
            assert("capture"@.len() != "continue"@.len());
            assert("capture"@ != "continue"@);
            assert("capture"@.len() != "e"@.len());
            assert("capture"@ != "e"@);
            assert("capture"@.len() != "ou"@.len());
            assert("capture"@ != "ou"@);
            assert("capture"@.len() != "nao"@.len());
            assert("capture"@ != "nao"@);
            assert("capture"@.len() != "verdadeiro"@.len());
            assert("capture"@ != "verdadeiro"@);
            assert("capture"@.len() != "falso"@.len());
            assert("capture"@ != "falso"@);
            assert("capture"@.len() != "nulo"@.len());
            assert("capture"@ != "nulo"@);
            assert("capture"@.len() != "classe"@.len());
            assert("capture"@ != "classe"@);
            assert("capture"@.len() != "herda"@.len());
            assert("capture"@ != "herda"@);
            assert("capture"@.len() != "metodo"@.len());
            assert("capture"@ != "metodo"@);
            assert("capture"@.len() != "construtor"@.len());
            assert("capture"@ != "construtor"@);
            assert("capture"@.len() != "novo"@.len());
            assert("capture"@ != "novo"@);
            assert("capture"@.len() != "isto"@.len());
            assert("capture"@ != "isto"@);
            assert("capture"@.len() != "base"@.len());
            assert("capture"@ != "base"@);
            assert("capture"@.len() != "estatico"@.len());
            assert("capture"@ != "estatico"@);
            assert("capture"@.len() != "tente"@.len());
            assert("capture"@ != "tente"@);
            assert(palavra_chave_spec("capture"@) == Some(TipoToken::Capture));
        },
        TipoToken::Finalmente => {
            assert("finalmente"@.len() != "var"@.len());
            assert("finalmente"@ != "var"@);
            assert("finalmente"@.len() != "constante"@.len());
            assert("finalmente"@ != "constante"@);
            assert("finalmente"@.len() != "funcao"@.len());
            assert("finalmente"@ != "funcao"@);
            assert("finalmente"@.len() != "retorne"@.len());
            assert("finalmente"@ != "retorne"@);
            assert("finalmente"@.len() != "se"@.len());
            assert("finalmente"@ != "se"@);
            assert("finalmente"@.len() != "senao"@.len());
            assert("finalmente"@ != "senao"@);
            assert("finalmente"@.len() != "senaose"@.len());
            assert("finalmente"@ != "senaose"@);
            assert("finalmente"@.len() != "escolha"@.len());
            assert("finalmente"@ != "escolha"@);
            assert("finalmente"@.len() != "caso"@.len());
            assert("finalmente"@ != "caso"@);
            assert("finalmente"@.len() != "padrao"@.len());
            assert("finalmente"@ != "padrao"@);
            assert("finalmente"@.len() != "enquanto"@.len());
            assert("finalmente"@ != "enquanto"@);
            assert("finalmente"@.len() != "para"@.len());
            assert("finalmente"@ != "para"@);
            assert("finalmente"@.len() != "cada"@.len());
            assert("finalmente"@ != "cada"@);
            assert("finalmente"@.len() != "em"@.len());
            assert("finalmente"@ != "em"@);
            assert("finalmente"@.len() != "de"@.len());
            assert("finalmente"@ != "de"@);
            assert("finalmente"@.len() != "ate"@.len());
            assert("finalmente"@ != "ate"@);
            assert("finalmente"@.len() != "passo"@.len());
            assert("finalmente"@ != "passo"@);
            assert("finalmente"@.len() != "pare"@.len());
            assert("finalmente"@ != "pare"@);
            assert("finalmente"@.len() != "continue"@.len());
            assert("finalmente"@ != "continue"@);
            assert("finalmente"@.len() != "e"@.len());
            assert("finalmente"@ != "e"@);
            assert("finalmente"@.len() != "ou"@.len());
            assert("finalmente"@ != "ou"@);
            assert("finalmente"@.len() != "nao"@.len());
            assert("finalmente"@ != "nao"@);
            assert("finalmente"@[0] != "verdadeiro"@[0]);
            assert("finalmente"@ != "verdadeiro"@);
            assert("finalmente"@.len() != "falso"@.len());
            assert("finalmente"@ != "falso"@);
            assert("finalmente"@.len() != "nulo"@.len());
            assert("finalmente"@ != "nulo"@);
            assert("finalmente"@.len() != "classe"@.len());
            assert("finalmente"@ != "classe"@);
            assert("finalmente"@.len() != "herda"@.len());
            assert("finalmente"@ != "herda"@);
            assert("finalmente"@.len() != "metodo"@.len());
            assert("finalmente"@ != "metodo"@);
            assert("finalmente"@[0] != "construtor"@[0]);
            assert("finalmente"@ != "construtor"@);
            assert("finalmente"@.len() != "novo"@.len());
            assert("finalmente"@ != "novo"@);
            assert("finalmente"@.len() != "isto"@.len());
            assert("finalmente"@ != "isto"@);
            assert("finalmente"@.len() != "base"@.len());
            assert("finalmente"@ != "base"@);
            assert("finalmente"@.len() != "estatico"@.len());
            assert("finalmente"@ != "estatico"@);
            assert("finalmente"@.len() != "tente"@.len());
            assert("finalmente"@ != "tente"@);
            assert("finalmente"@.len() != "capture"@.len());
            assert("finalmente"@ != "capture"@);
            assert(palavra_chave_spec("finalmente"@) == Some(TipoToken::Finalmente));
        },
        TipoToken::Lance => {
            assert("lance"@.len() != "var"@.len());
            assert("lance"@ != "var"@);
            assert("lance"@.len() != "constante"@.len());
            assert("lance"@ != "constante"@);
            assert("lance"@.len() != "funcao"@.len());
            assert("lance"@ != "funcao"@);
            assert("lance"@.len() != "retorne"@.len());
            assert("lance"@ != "retorne"@);
            assert("lance"@.len() != "se"@.len());
            assert("lance"@ != "se"@);
            assert("lance"@[0] != "senao"@[0]);
            assert("lance"@ != "senao"@);
            assert("lance"@.len() != "senaose"@.len());
            assert("lance"@ != "senaose"@);
            assert("lance"@.len() != "escolha"@.len());
            assert("lance"@ != "escolha"@);
            assert("lance"@.len() != "caso"@.len());
            assert("lance"@ != "caso"@);
            assert("lance"@.len() != "padrao"@.len());
            assert("lance"@ != "padrao"@);
            assert("lance"@.len() != "enquanto"@.len());
            assert("lance"@ != "enquanto"@);
            assert("lance"@.len() != "para"@.len());
            assert("lance"@ != "para"@);
            assert("lance"@.len() != "cada"@.len());
            assert("lance"@ != "cada"@);
            assert("lance"@.len() != "em"@.len());
            assert("lance"@ != "em"@);
            assert("lance"@.len() != "de"@.len());
            assert("lance"@ != "de"@);
            assert("lance"@.len() != "ate"@.len());
            assert("lance"@ != "ate"@);
            assert("lance"@[0] != "passo"@[0]);
            assert("lance"@ != "passo"@);
            assert("lance"@.len() != "pare"@.len());
            assert("lance"@ != "pare"@);
            assert("lance"@.len() != "continue"@.len());
            assert("lance"@ != "continue"@);
            assert("lance"@.len() != "e"@.len());
            assert("lance"@ != "e"@);
            assert("lance"@.len() != "ou"@.len());
            assert("lance"@ != "ou"@);
            assert("lance"@.len() != "nao"@.len());
            assert("lance"@ != "nao"@);
            assert("lance"@.len() != "verdadeiro"@.len());
            assert("lance"@ != "verdadeiro"@);
            assert("lance"@[0] != "falso"@[0]);
            assert("lance"@ != "falso"@);
            assert("lance"@.len() != "nulo"@.len());
            assert("lance"@ != "nulo"@);
            assert("lance"@.len() != "classe"@.len());
            assert("lance"@ != "classe"@);
            assert("lance"@[0] != "herda"@[0]);
            assert("lance"@ != "herda"@);
            assert("lance"@.len() != "metodo"@.len());
            assert("lance"@ != "metodo"@);
            assert("lance"@.len() != "construtor"@.len());
            assert("lance"@ != "construtor"@);
            assert("lance"@.len() != "novo"@.len());
            assert("lance"@ != "novo"@);
            assert("lance"@.len() != "isto"@.len());
            assert("lance"@ != "isto"@);
            assert("lance"@.len() != "base"@.len());
            assert("lance"@ != "base"@);
            assert("lance"@.len() != "estatico"@.len());
            assert("lance"@ != "estatico"@);
            assert("lance"@[0] != "tente"@[0]);
            assert("lance"@ != "tente"@);
            assert("lance"@.len() != "capture"@.len());
            assert("lance"@ != "capture"@);
            assert("lance"@.len() != "finalmente"@.len());
            assert("lance"@ != "finalmente"@);
            assert(palavra_chave_spec("lance"@) == Some(TipoToken::Lance));
        },
        TipoToken::Importe => {
            assert("importe"@.len() != "var"@.len());
            assert("importe"@ != "var"@);
            assert("importe"@.len() != "constante"@.len());
            assert("importe"@ != "constante"@);
            assert("importe"@.len() != "funcao"@.len());
            assert("importe"@ != "funcao"@);
            assert("importe"@[0] != "retorne"@[0]);
            assert("importe"@ != "retorne"@);
            assert("importe"@.len() != "se"@.len());
            assert("importe"@ != "se"@);
            assert("importe"@.len() != "senao"@.len());
            assert("importe"@ != "senao"@);
            assert("importe"@[0] != "senaose"@[0]);
            assert("importe"@ != "senaose"@);
            assert("importe"@[0] != "escolha"@[0]);
            assert("importe"@ != "escolha"@);
            assert("importe"@.len() != "caso"@.len());
            assert("importe"@ != "caso"@);
            assert("importe"@.len() != "padrao"@.len());
            assert("importe"@ != "padrao"@);
            assert("importe"@.len() != "enquanto"@.len());
            assert("importe"@ != "enquanto"@);
            assert("importe"@.len() != "para"@.len());
            assert("importe"@ != "para"@);
            assert("importe"@.len() != "cada"@.len());
            assert("importe"@ != "cada"@);
            assert("importe"@.len() != "em"@.len());
            assert("importe"@ != "em"@);
            assert("importe"@.len() != "de"@.len());
            assert("importe"@ != "de"@);
            assert("importe"@.len() != "ate"@.len());
            assert("importe"@ != "ate"@);
            assert("importe"@.len() != "passo"@.len());
            assert("importe"@ != "passo"@);
            assert("importe"@.len() != "pare"@.len());
            assert("importe"@ != "pare"@);
            assert("importe"@.len() != "continue"@.len());
            assert("importe"@ != "continue"@);
            assert("importe"@.len() != "e"@.len());
            assert("importe"@ != "e"@);
            assert("importe"@.len() != "ou"@.len());
            assert("importe"@ != "ou"@);
            assert("importe"@.len() != "nao"@.len());
            assert("importe"@ != "nao"@);
            assert("importe"@.len() != "verdadeiro"@.len());
            assert("importe"@ != "verdadeiro"@);
            assert("importe"@.len() != "falso"@.len());
            assert("importe"@ != "falso"@);
            assert("importe"@.len() != "nulo"@.len());
            assert("importe"@ != "nulo"@);
            assert("importe"@.len() != "classe"@.len());
            assert("importe"@ != "classe"@);
            assert("importe"@.len() != "herda"@.len());
            assert("importe"@ != "herda"@);
            assert("importe"@.len() != "metodo"@.len());
            assert("importe"@ != "metodo"@);
            assert("importe"@.len() != "construtor"@.len());
            assert("importe"@ != "construtor"@);
            assert("importe"@.len() != "novo"@.len());
            assert("importe"@ != "novo"@);
            assert("importe"@.len() != "isto"@.len());
            assert("importe"@ != "isto"@);
            assert("importe"@.len() != "base"@.len());
            assert("importe"@ != "base"@);
            assert("importe"@.len() != "estatico"@.len());
            assert("importe"@ != "estatico"@);
            assert("importe"@.len() != "tente"@.len());
            assert("importe"@ != "tente"@);
            assert("importe"@[0] != "capture"@[0]);
            assert("importe"@ != "capture"@);
            assert("importe"@.len() != "finalmente"@.len());
            assert("importe"@ != "finalmente"@);
            assert("importe"@.len() != "lance"@.len());
            assert("importe"@ != "lance"@);
            assert(palavra_chave_spec("importe"@) == Some(TipoToken::Importe));
        },
        TipoToken::Como => {
            assert("como"@.len() != "var"@.len());
            assert("como"@ != "var"@);
            assert("como"@.len() != "constante"@.len());
            assert("como"@ != "constante"@);
            assert("como"@.len() != "funcao"@.len());
            assert("como"@ != "funcao"@);
            assert("como"@.len() != "retorne"@.len());
            assert("como"@ != "retorne"@);
            assert("como"@.len() != "se"@.len());
            assert("como"@ != "se"@);
            assert("como"@.len() != "senao"@.len());
            assert("como"@ != "senao"@);
            assert("como"@.len() != "senaose"@.len());
            assert("como"@ != "senaose"@);
            assert("como"@.len() != "escolha"@.len());
            assert("como"@ != "escolha"@);
            assert("como"@[1] != "caso"@[1]);
            assert("como"@ != "caso"@);
            assert("como"@.len() != "padrao"@.len());
            assert("como"@ != "padrao"@);
            assert("como"@.len() != "enquanto"@.len());
            assert("como"@ != "enquanto"@);
            assert("como"@[0] != "para"@[0]);
            assert("como"@ != "para"@);
            assert("como"@[1] != "cada"@[1]);
            assert("como"@ != "cada"@);
            assert("como"@.len() != "em"@.len());
            assert("como"@ != "em"@);
            assert("como"@.len() != "de"@.len());
            assert("como"@ != "de"@);
            assert("como"@.len() != "ate"@.len());
            assert("como"@ != "ate"@);
            assert("como"@.len() != "passo"@.len());
            assert("como"@ != "passo"@);
            assert("como"@[0] != "pare"@[0]);
            assert("como"@ != "pare"@);
            assert("como"@.len() != "continue"@.len());
            assert("como"@ != "continue"@);
            assert("como"@.len() != "e"@.len());
            assert("como"@ != "e"@);
            assert("como"@.len() != "ou"@.len());
            assert("como"@ != "ou"@);
            assert("como"@.len() != "nao"@.len());
            assert("como"@ != "nao"@);
            assert("como"@.len() != "verdadeiro"@.len());
            assert("como"@ != "verdadeiro"@);
            assert("como"@.len() != "falso"@.len());
            assert("como"@ != "falso"@);
            assert("como"@[0] != "nulo"@[0]);
            assert("como"@ != "nulo"@);
            assert("como"@.len() != "classe"@.len());
            assert("como"@ != "classe"@);
            assert("como"@.len() != "herda"@.len());
            assert("como"@ != "herda"@);
            assert("como"@.len() != "metodo"@.len());
            assert("como"@ != "metodo"@);
            assert("como"@.len() != "construtor"@.len());
            assert("como"@ != "construtor"@);
            assert("como"@[0] != "novo"@[0]);
            assert("como"@ != "novo"@);
            assert("como"@[0] != "isto"@[0]);
            assert("como"@ != "isto"@);
            assert("como"@[0] != "base"@[0]);
            assert("como"@ != "base"@);
            assert("como"@.len() != "estatico"@.len());
            assert("como"@ != "estatico"@);
            assert("como"@.len() != "tente"@.len());
            assert("como"@ != "tente"@);
            assert("como"@.len() != "capture"@.len());
            assert("como"@ != "capture"@);
            assert("como"@.len() != "finalmente"@.len());
            assert("como"@ != "finalmente"@);
            assert("como"@.len() != "lance"@.len());
            assert("como"@ != "lance"@);
            assert("como"@.len() != "importe"@.len());
            assert("como"@ != "importe"@);
            assert(palavra_chave_spec("como"@) == Some(TipoToken::Como));
        },
        _ => {},
    }
}

/// Duas grafias que dão o mesmo token são a mesma.
pub proof fn lei_palavras_chave_injetiva(s1: Seq<char>, s2: Seq<char>)
    ensures
        palavra_chave_spec(s1) is Some && palavra_chave_spec(s1) == palavra_chave_spec(s2) ==> s1 == s2,
{
    lei_palavras_chave(s1, palavra_chave_spec(s1)->0);
    lei_palavras_chave(s2, palavra_chave_spec(s1)->0);
}

/// A palavra-chave escrita pelos caracteres `s`, se for uma.
pub fn palavra_chave_de(s: &[char]) -> (r: Option<TipoToken>)
    ensures
        r == palavra_chave_spec(s@),
{
    if igual_literal(s, "var") { Some(TipoToken::Var) }
    else if igual_literal(s, "constante") { Some(TipoToken::Constante) }
    else if igual_literal(s, "funcao") { Some(TipoToken::Funcao) }
    else if igual_literal(s, "retorne") { Some(TipoToken::Retorne) }
    else if igual_literal(s, "se") { Some(TipoToken::Se) }
    else if igual_literal(s, "senao") { Some(TipoToken::Senao) }
    else if igual_literal(s, "senaose") { Some(TipoToken::SenaoSe) }
    else if igual_literal(s, "escolha") { Some(TipoToken::Escolha) }
    else if igual_literal(s, "caso") { Some(TipoToken::Caso) }
    else if igual_literal(s, "padrao") { Some(TipoToken::Padrao) }
    else if igual_literal(s, "enquanto") { Some(TipoToken::Enquanto) }
    else if igual_literal(s, "para") { Some(TipoToken::Para) }
    else if igual_literal(s, "cada") { Some(TipoToken::Cada) }
    else if igual_literal(s, "em") { Some(TipoToken::Em) }
    else if igual_literal(s, "de") { Some(TipoToken::De) }
    else if igual_literal(s, "ate") { Some(TipoToken::Ate) }
    else if igual_literal(s, "passo") { Some(TipoToken::Passo) }
    else if igual_literal(s, "pare") { Some(TipoToken::Pare) }
    else if igual_literal(s, "continue") { Some(TipoToken::Continue) }
    else if igual_literal(s, "e") { Some(TipoToken::E) }
    else if igual_literal(s, "ou") { Some(TipoToken::Ou) }
    else if igual_literal(s, "nao") { Some(TipoToken::Nao) }
    else if igual_literal(s, "verdadeiro") { Some(TipoToken::Verdadeiro) }
    else if igual_literal(s, "falso") { Some(TipoToken::Falso) }
    else if igual_literal(s, "nulo") { Some(TipoToken::Nulo) }
    else if igual_literal(s, "classe") { Some(TipoToken::Classe) }
    else if igual_literal(s, "herda") { Some(TipoToken::Herda) }
    else if igual_literal(s, "metodo") { Some(TipoToken::Metodo) }
    else if igual_literal(s, "construtor") { Some(TipoToken::Construtor) }
    else if igual_literal(s, "novo") { Some(TipoToken::Novo) }
    else if igual_literal(s, "isto") { Some(TipoToken::Isto) }
    else if igual_literal(s, "base") { Some(TipoToken::Base) }
    else if igual_literal(s, "estatico") { Some(TipoToken::Estatico) }
    else if igual_literal(s, "tente") { Some(TipoToken::Tente) }
    else if igual_literal(s, "capture") { Some(TipoToken::Capture) }
    else if igual_literal(s, "finalmente") { Some(TipoToken::Finalmente) }
    else if igual_literal(s, "lance") { Some(TipoToken::Lance) }
    else if igual_literal(s, "importe") { Some(TipoToken::Importe) }
    else if igual_literal(s, "como") { Some(TipoToken::Como) }
    else { None }
}

/// Converte um identificador em palavra-chave, se for uma.
pub fn palavra_chave(texto: &str) -> (r: Option<TipoToken>)
    ensures
        r == palavra_chave_spec(texto@),
{
    let cs = caracteres(texto);
    palavra_chave_de(cs.as_slice())
}

} // verus!
